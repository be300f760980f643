use retcat::addr::{bind_all_addr, format_addr, udp_client_plan};

#[test]
fn formats_host_and_port() {
    assert_eq!(format_addr("localhost", 8080), "localhost:8080");
    assert_eq!(format_addr("example.org", 9001), "example.org:9001");
}

#[test]
fn formats_single_digit_and_extreme_ports() {
    assert_eq!(format_addr("h", 0), "h:0");
    assert_eq!(format_addr("h", 7), "h:7");
    assert_eq!(format_addr("h", 10), "h:10");
    assert_eq!(format_addr("h", 65535), "h:65535");
}

#[test]
fn listeners_bind_all_interfaces() {
    assert_eq!(bind_all_addr(9002), "0.0.0.0:9002");
}

#[test]
fn udp_client_setup_is_immediate_and_total() {
    // No handshake, no failure path: the plan is produced unconditionally,
    // whatever the target; reachability can only matter on send or receive.
    let (local, target) = udp_client_plan("203.0.113.9", 9999);
    assert_eq!(local, "0.0.0.0:0");
    assert_eq!(target, "203.0.113.9:9999");
}
