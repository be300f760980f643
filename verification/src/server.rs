//! Decision logic of the two listening modes. A TCP listener serves
//! exactly one connection and then stops listening; failed accept
//! attempts are transient. A UDP server never stops: it forwards every
//! inbound datagram to the output, whatever its sender, and remembers
//! the first sender only for a one-time informational line.

use vstd::prelude::*;

verus! {

/// The outcome of one blocking `accept` on the listening socket.
#[derive(Clone, Copy, Debug, PartialEq, Eq, Structural)]
pub enum AcceptOutcome {
    /// A connection arrived and was accepted.
    Accepted,
    /// This accept attempt failed.
    AttemptFailed,
}

/// What the server does after one accept attempt.
#[derive(Clone, Copy, Debug, PartialEq, Eq, Structural)]
pub enum AcceptAction {
    /// Serve this connection and stop listening: the accept loop ends here.
    Serve,
    /// Log the failure and wait for the next inbound attempt.
    KeepWaiting,
}

/// One decision of the accept loop: a successful accept is served and
/// ends the loop at once; a failed attempt is logged and the loop keeps
/// waiting. An accept failure is transient, never fatal.
pub fn accept_step(outcome: AcceptOutcome) -> (action: AcceptAction)
    ensures
        action == (if outcome is Accepted {
            AcceptAction::Serve
        } else {
            AcceptAction::KeepWaiting
        }),
{
    match outcome {
        AcceptOutcome::Accepted => AcceptAction::Serve,
        AcceptOutcome::AttemptFailed => AcceptAction::KeepWaiting,
    }
}

/// Whether attempt `i` is the one the listener serves: the first
/// accepted attempt.
pub open spec fn is_served(outcomes: Seq<AcceptOutcome>, i: int) -> bool {
    &&& 0 <= i < outcomes.len()
    &&& outcomes[i] is Accepted
    &&& forall|j: int| 0 <= j < i ==> !(outcomes[j] is Accepted)
}

/// Runs the whole accept loop over a recorded sequence of accept
/// outcomes and returns which attempt, if any, was served. The loop
/// stops at the first success, so later attempts are never looked at;
/// with no success it waits forever (here: until the record ends).
pub fn accept_plan(outcomes: &Vec<AcceptOutcome>) -> (served: Option<usize>)
    ensures
        match served {
            Some(i) => is_served(outcomes@, i as int),
            None => forall|j: int| 0 <= j < outcomes@.len() ==> !(outcomes@[j] is Accepted),
        },
{
    let mut i: usize = 0;
    while i < outcomes.len()
        invariant
            i <= outcomes@.len(),
            forall|j: int| 0 <= j < i ==> !(outcomes@[j] is Accepted),
        decreases outcomes@.len() - i,
    {
        match accept_step(outcomes[i]) {
            AcceptAction::Serve => {
                return Some(i);
            },
            AcceptAction::KeepWaiting => {},
        }
        i = i + 1;
    }
    None
}

/// A listening invocation serves at most one connection: any two served
/// attempts are the same attempt, so a second simultaneous connection
/// attempt is never serviced by the same invocation.
pub proof fn lemma_serves_at_most_one(outcomes: Seq<AcceptOutcome>, i: int, j: int)
    requires
        is_served(outcomes, i),
        is_served(outcomes, j),
    ensures
        i == j,
{
    if i < j {
        assert(!(outcomes[i] is Accepted));
    } else if j < i {
        assert(!(outcomes[j] is Accepted));
    }
}

/// The outcome of one blocking `recv_from` on the bound UDP socket.
#[derive(Clone, Debug, PartialEq, Eq)]
pub enum RecvOutcome {
    /// A datagram arrived: its payload and its sender's rendered address.
    Datagram(Vec<u8>, String),
    /// The receive failed.
    RecvFailed,
}

/// What the UDP server does after one receive. No variant stops the
/// loop: it has no termination condition of its own.
#[derive(Clone, Debug, PartialEq, Eq)]
pub enum UdpAction {
    /// First datagram ever: announce its sender once, then write the
    /// payload to stdout and flush.
    AnnounceAndOutput(String, Vec<u8>),
    /// Write the payload to stdout and flush.
    Output(Vec<u8>),
    /// Log the receive error and keep waiting.
    LogError,
}

/// The UDP server's only state: the sender of the first datagram,
/// remembered once for a single informational line. It is never used to
/// filter: every inbound datagram is forwarded whatever its sender.
pub struct UdpServerState {
    pub peer: Option<String>,
}

impl UdpServerState {
    /// A fresh server: no datagram seen yet.
    pub fn new() -> (s: UdpServerState)
        ensures
            s.peer is None,
    {
        UdpServerState { peer: None }
    }

    /// One decision of the UDP server loop: a datagram is always
    /// forwarded, the first one also announces its sender and fixes the
    /// sticky peer for good; a receive error is logged and changes
    /// nothing.
    pub fn step(&mut self, outcome: RecvOutcome) -> (action: UdpAction)
        ensures
            (match outcome {
                RecvOutcome::Datagram(data, sender) => {
                    if old(self).peer is None {
                        &&& final(self).peer == Some(sender)
                        &&& action == UdpAction::AnnounceAndOutput(sender, data)
                    } else {
                        &&& final(self).peer == old(self).peer
                        &&& action == UdpAction::Output(data)
                    }
                },
                RecvOutcome::RecvFailed => {
                    &&& final(self).peer == old(self).peer
                    &&& action == UdpAction::LogError
                },
            }),
    {
        match outcome {
            RecvOutcome::Datagram(data, sender) => {
                if self.peer.is_none() {
                    let announced = sender.clone();
                    self.peer = Some(sender);
                    UdpAction::AnnounceAndOutput(announced, data)
                } else {
                    UdpAction::Output(data)
                }
            },
            RecvOutcome::RecvFailed => UdpAction::LogError,
        }
    }
}

/// The bytes the UDP server writes to stdout when its receives produce
/// `events` in order: every datagram payload, from every sender, in
/// arrival order; receive errors contribute nothing and the loop goes on.
pub open spec fn udp_output(events: Seq<RecvOutcome>) -> Seq<u8>
    decreases events.len(),
{
    if events.len() == 0 {
        Seq::empty()
    } else {
        (match events[0] {
            RecvOutcome::Datagram(data, sender) => data@,
            RecvOutcome::RecvFailed => Seq::empty(),
        }) + udp_output(events.skip(1))
    }
}

/// The sender of the first datagram among `events`, if any arrived.
pub open spec fn first_sender(events: Seq<RecvOutcome>) -> Option<Seq<char>>
    decreases events.len(),
{
    if events.len() == 0 {
        None
    } else {
        match events[0] {
            RecvOutcome::Datagram(data, sender) => Some(sender@),
            RecvOutcome::RecvFailed => first_sender(events.skip(1)),
        }
    }
}

/// Runs the UDP server loop over a recorded sequence of receive
/// outcomes: forwards every datagram payload in arrival order, whatever
/// its sender, and remembers the first sender as the sticky peer.
/// Unlike a relay pump, this loop never decides to stop.
pub fn udp_server_run(events: &Vec<RecvOutcome>) -> (r: (Vec<u8>, UdpServerState))
    ensures
        r.0@ == udp_output(events@),
        (match r.1.peer {
            Some(p) => first_sender(events@) == Some(p@),
            None => first_sender(events@) is None,
        }),
{
    let mut out: Vec<u8> = Vec::new();
    let mut state = UdpServerState::new();
    let mut i: usize = 0;
    proof {
        assert(events@.skip(0) =~= events@);
    }
    while i < events.len()
        invariant
            i <= events@.len(),
            udp_output(events@) == out@ + udp_output(events@.skip(i as int)),
            (match state.peer {
                Some(p) => first_sender(events@) == Some(p@),
                None => first_sender(events@) == first_sender(events@.skip(i as int)),
            }),
        decreases events@.len() - i,
    {
        proof {
            assert(events@.skip(i as int)[0] == events@[i as int]);
            assert(events@.skip(i as int).skip(1) =~= events@.skip(i as int + 1));
        }
        match &events[i] {
            RecvOutcome::Datagram(data, sender) => {
                let ghost prev = out@;
                out.extend_from_slice(data.as_slice());
                proof {
                    assert(out@ =~= prev + data@);
                }
                if state.peer.is_none() {
                    state.peer = Some(sender.clone());
                }
            },
            RecvOutcome::RecvFailed => {},
        }
        i = i + 1;
    }
    proof {
        assert(events@.skip(i as int) =~= Seq::<RecvOutcome>::empty());
    }
    (out, state)
}

} // verus!
