use living_canvas::cards::telemetry::{connection_traffic, interface_traffic, uptime_line};

#[test]
fn uptime_counts_whole_hours() {
    assert_eq!(uptime_line(0), "0 hours");
    assert_eq!(uptime_line(3599), "0 hours");
    assert_eq!(uptime_line(7200 + 59), "2 hours");
}

#[test]
fn traffic_counts_whole_mebibytes() {
    assert_eq!(
        interface_traffic(3 * 1048576 + 5, 1048575),
        ("RX: 3 MB".to_owned(), "TX: 0 MB".to_owned())
    );
    assert_eq!(connection_traffic(10 * 1048576, 2 * 1048576), "↓ 10 MB  ↑ 2 MB");
}
