use retcat::config::{plan_session, Config, Mode, DEFAULT_PORT};

fn cfg(listen: bool, port: Option<u16>, host: Option<&str>, udp: bool) -> Config {
    Config { listen, port, host: host.map(|h| h.to_string()), udp }
}

#[test]
fn listen_flag_port_wins_over_positional() {
    let plan = plan_session(cfg(true, Some(2000), None, false), Some(3000));
    assert_eq!(plan.port, 2000);
    assert_eq!(plan.mode, Mode::TcpServer);
}

#[test]
fn listen_positional_port_when_no_flag() {
    let plan = plan_session(cfg(true, None, None, false), Some(3000));
    assert_eq!(plan.port, 3000);
}

#[test]
fn listen_default_port() {
    let plan = plan_session(cfg(true, None, None, false), None);
    assert_eq!(plan.port, 8080);
    assert_eq!(DEFAULT_PORT, 8080);
}

#[test]
fn client_positional_port_wins_over_flag() {
    let plan = plan_session(cfg(false, Some(2000), Some("example"), false), Some(3000));
    assert_eq!(plan.port, 3000);
    assert_eq!(plan.mode, Mode::TcpClient);
    assert_eq!(plan.host, "example");
}

#[test]
fn client_flag_port_when_no_positional() {
    let plan = plan_session(cfg(false, Some(2000), None, false), None);
    assert_eq!(plan.port, 2000);
}

#[test]
fn client_defaults_to_localhost_and_8080() {
    let plan = plan_session(cfg(false, None, None, false), None);
    assert_eq!(plan.port, 8080);
    assert_eq!(plan.host, "localhost");
}

#[test]
fn mode_follows_the_two_flags() {
    assert_eq!(plan_session(cfg(false, None, None, false), None).mode, Mode::TcpClient);
    assert_eq!(plan_session(cfg(true, None, None, false), None).mode, Mode::TcpServer);
    assert_eq!(plan_session(cfg(false, None, None, true), None).mode, Mode::UdpClient);
    assert_eq!(plan_session(cfg(true, None, None, true), None).mode, Mode::UdpServer);
}
