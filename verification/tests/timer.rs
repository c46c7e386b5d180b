use time_tracker::timer::format_duration;

#[test]
fn formats_hours_and_minutes() {
    assert_eq!(format_duration(0), "0h 0m");
    assert_eq!(format_duration(3600), "1h 0m");
    assert_eq!(format_duration(3900), "1h 5m");
}

#[test]
fn drops_leftover_seconds() {
    assert_eq!(format_duration(59), "0h 0m");
    assert_eq!(format_duration(3599), "0h 59m");
    assert_eq!(format_duration(2 * 3600 + 7 * 60 + 42), "2h 7m");
}

#[test]
fn formats_multi_digit_hours() {
    assert_eq!(format_duration(36000), "10h 0m");
    assert_eq!(format_duration(123 * 3600 + 45 * 60), "123h 45m");
    assert_eq!(format_duration(u64::MAX), "5124095576030431h 0m");
}
