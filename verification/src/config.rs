//! Resolution of command-line parameters into a session plan: which
//! transport and role to run, which port, and (for clients) which host.

use vstd::prelude::*;
use vstd::string::StringExecFns;

verus! {

/// The transport-and-role mode of one invocation.
#[derive(Clone, Copy, Debug, PartialEq, Eq, Structural)]
pub enum Mode {
    TcpClient,
    TcpServer,
    UdpClient,
    UdpServer,
}

/// Port used when neither `--port` nor a positional port is given.
pub const DEFAULT_PORT: u16 = 8080;

/// The options taken from the command line: the `--listen` and `--udp`
/// flags, the `--port` value, and the positional host.
pub struct Config {
    pub listen: bool,
    pub port: Option<u16>,
    pub host: Option<String>,
    pub udp: bool,
}

/// Everything a mode driver needs to start one session.
pub struct SessionPlan {
    pub mode: Mode,
    /// Target host; meaningful only for the client modes. Listen modes
    /// always bind all interfaces.
    pub host: String,
    pub port: u16,
}

/// The port that wins: `primary` over `secondary` over the default.
pub open spec fn chosen_port(primary: Option<u16>, secondary: Option<u16>) -> u16 {
    match primary {
        Some(p) => p,
        None => match secondary {
            Some(p) => p,
            None => DEFAULT_PORT,
        },
    }
}

/// The mode selected by the two flags.
pub open spec fn chosen_mode(listen: bool, udp: bool) -> Mode {
    if listen {
        if udp {
            Mode::UdpServer
        } else {
            Mode::TcpServer
        }
    } else {
        if udp {
            Mode::UdpClient
        } else {
            Mode::TcpClient
        }
    }
}

/// The client target host: the positional host, or `localhost`.
pub open spec fn chosen_host(host: Option<String>) -> Seq<char> {
    match host {
        Some(h) => h@,
        None => "localhost"@,
    }
}

/// Resolves the command line into a session plan.
///
/// Precedence: in listen mode `--port` wins over the positional port; in
/// client mode the positional port wins over `--port`; either way the port
/// falls back to `DEFAULT_PORT` when neither is given. The host defaults
/// to `localhost` for clients and is not consulted for servers.
pub fn plan_session(config: Config, target_port: Option<u16>) -> (plan: SessionPlan)
    ensures
        plan.mode == chosen_mode(config.listen, config.udp),
        config.listen ==> plan.port == chosen_port(config.port, target_port),
        !config.listen ==> plan.port == chosen_port(target_port, config.port),
        plan.host@ == chosen_host(config.host),
{
    let mode = if config.listen {
        if config.udp {
            Mode::UdpServer
        } else {
            Mode::TcpServer
        }
    } else {
        if config.udp {
            Mode::UdpClient
        } else {
            Mode::TcpClient
        }
    };
    let port = if config.listen {
        match config.port {
            Some(p) => p,
            None => match target_port {
                Some(p) => p,
                None => DEFAULT_PORT,
            },
        }
    } else {
        match target_port {
            Some(p) => p,
            None => match config.port {
                Some(p) => p,
                None => DEFAULT_PORT,
            },
        }
    };
    let host = match config.host {
        Some(h) => h,
        None => String::from_str("localhost"),
    };
    SessionPlan { mode, host, port }
}

} // verus!
