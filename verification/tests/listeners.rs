use retcat::server::{
    accept_plan, accept_step, udp_server_run, AcceptAction, AcceptOutcome, RecvOutcome,
    UdpAction, UdpServerState,
};

#[test]
fn accept_serves_on_success_and_waits_on_failure() {
    assert_eq!(accept_step(AcceptOutcome::Accepted), AcceptAction::Serve);
    assert_eq!(accept_step(AcceptOutcome::AttemptFailed), AcceptAction::KeepWaiting);
}

#[test]
fn serves_only_the_first_successful_accept() {
    let outcomes = vec![
        AcceptOutcome::AttemptFailed,
        AcceptOutcome::Accepted,
        AcceptOutcome::Accepted,
    ];
    assert_eq!(accept_plan(&outcomes), Some(1));
}

#[test]
fn keeps_waiting_while_accepts_fail() {
    let outcomes = vec![AcceptOutcome::AttemptFailed, AcceptOutcome::AttemptFailed];
    assert_eq!(accept_plan(&outcomes), None);
}

#[test]
fn udp_forwards_datagrams_from_two_senders_in_arrival_order() {
    let events = vec![
        RecvOutcome::Datagram(b"first\n".to_vec(), "198.51.100.1:4000".to_string()),
        RecvOutcome::Datagram(b"second\n".to_vec(), "203.0.113.2:5000".to_string()),
    ];
    let (out, state) = udp_server_run(&events);
    assert_eq!(out, b"first\nsecond\n".to_vec());
    assert_eq!(state.peer, Some("198.51.100.1:4000".to_string()));
}

#[test]
fn udp_receive_error_does_not_stop_the_loop() {
    let events = vec![
        RecvOutcome::RecvFailed,
        RecvOutcome::Datagram(vec![42], "192.0.2.3:6000".to_string()),
    ];
    let (out, state) = udp_server_run(&events);
    assert_eq!(out, vec![42]);
    assert_eq!(state.peer, Some("192.0.2.3:6000".to_string()));
}

#[test]
fn udp_step_announces_only_the_first_sender() {
    let mut state = UdpServerState::new();
    let first = state.step(RecvOutcome::Datagram(vec![1], "a:1".to_string()));
    assert_eq!(first, UdpAction::AnnounceAndOutput("a:1".to_string(), vec![1]));
    let second = state.step(RecvOutcome::Datagram(vec![2], "b:2".to_string()));
    assert_eq!(second, UdpAction::Output(vec![2]));
    assert_eq!(state.peer, Some("a:1".to_string()));
}

#[test]
fn udp_step_logs_errors_and_changes_nothing() {
    let mut state = UdpServerState::new();
    let action = state.step(RecvOutcome::RecvFailed);
    assert_eq!(action, UdpAction::LogError);
    assert_eq!(state.peer, None);
}
