use bybit_shiprekt::timestamp::{format_event_time, get_ms_and_ns_pair};

#[test]
fn milliseconds_split_into_seconds_and_nanoseconds() {
    assert_eq!(get_ms_and_ns_pair(1700000000000), (1700000000, 0));
    assert_eq!(get_ms_and_ns_pair(1700000000123), (1700000000, 123_000_000));
    assert_eq!(get_ms_and_ns_pair(999), (0, 999_000_000));
    assert_eq!(get_ms_and_ns_pair(0), (0, 0));
    assert_eq!(get_ms_and_ns_pair(u64::MAX), (18446744073709551, 615_000_000));
}

#[test]
fn event_time_is_written_in_utc() {
    assert_eq!(format_event_time(1700000000000), Some("2023-11-14 22:13:20 UTC".to_string()));
    assert_eq!(format_event_time(0), Some("1970-01-01 00:00:00 UTC".to_string()));
    assert_eq!(
        format_event_time(1700000000123),
        Some("2023-11-14 22:13:20.123 UTC".to_string())
    );
}

#[test]
fn event_time_beyond_the_calendar_is_absent() {
    assert_eq!(format_event_time(u64::MAX), None);
}
