use hikaru::util::format_time_period;

#[test]
fn seconds() {
    assert_eq!(format_time_period(5000), "5s");
    assert_eq!(format_time_period(1001), "1s");
    assert_eq!(format_time_period(60000), "60s");
}

#[test]
fn milliseconds_up_to_a_second() {
    assert_eq!(format_time_period(0), "0ms");
    assert_eq!(format_time_period(999), "999ms");
    assert_eq!(format_time_period(1000), "1000ms");
}

#[test]
fn larger_units() {
    assert_eq!(format_time_period(60001), "1min");
    assert_eq!(format_time_period(3600000), "60min");
    assert_eq!(format_time_period(3600001), "1h");
    assert_eq!(format_time_period(86400001), "1d");
    assert_eq!(format_time_period(90061000), "1d");
    assert_eq!(format_time_period(31536000001), "1year");
    assert_eq!(format_time_period(u64::MAX), "584942417year");
}

#[test]
fn rounds_down() {
    assert_eq!(format_time_period(119999), "1min");
    assert_eq!(format_time_period(10 * 86400000 + 5), "10d");
}
