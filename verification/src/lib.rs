//! A minimal netcat-style relay library: the decision logic of a one-shot
//! TCP/UDP byte relay between a socket and the process's standard streams.
//!
//! The library holds everything that can be stated and proved: how command
//! line parameters resolve to a session plan, how addresses are rendered,
//! what each relay pump does with a read outcome, when the session may end,
//! how a listening socket serves exactly one connection, and how a UDP
//! server forwards datagrams. The surrounding process (sockets, threads,
//! standard input and output) drives these decisions from outside.

use vstd::prelude::*;

pub mod addr;
pub mod config;
pub mod relay;
pub mod server;

verus! {

/// Size in bytes of the buffer used for each single read in a relay pump.
/// Chunks are forwarded immediately; nothing accumulates across reads.
pub const RELAY_BUFFER_LEN: usize = 1024;

} // verus!
