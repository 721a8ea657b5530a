use wayinfo::duration::{decimal_string, format_duration, seconds_text, whole_seconds};

#[test]
fn clock_text_below_an_hour() {
    assert_eq!(format_duration(0), "00:00");
    assert_eq!(format_duration(999_999), "00:00");
    assert_eq!(format_duration(59_999_999), "00:59");
    assert_eq!(format_duration(61_000_000), "01:01");
    assert_eq!(format_duration(203_000_000), "03:23");
    assert_eq!(format_duration(3_599_999_999), "59:59");
}

#[test]
fn clock_text_from_an_hour() {
    assert_eq!(format_duration(3_600_000_000), "01:00:00");
    assert_eq!(format_duration(3_661_000_000), "01:01:01");
    assert_eq!(format_duration(360_000_000_000), "100:00:00");
    assert_eq!(format_duration(u64::MAX), "5124095576:01:49");
}

#[test]
fn seconds_truncate() {
    assert_eq!(whole_seconds(0), 0);
    assert_eq!(whole_seconds(999_999), 0);
    assert_eq!(whole_seconds(1_999_999), 1);
    assert_eq!(whole_seconds(203_000_000), 203);
    assert_eq!(seconds_text(0), "0");
    assert_eq!(seconds_text(203_500_000), "203");
    assert_eq!(seconds_text(u64::MAX), "18446744073709");
}

#[test]
fn decimal_text() {
    assert_eq!(decimal_string(0), "0");
    assert_eq!(decimal_string(7), "7");
    assert_eq!(decimal_string(10), "10");
    assert_eq!(decimal_string(u64::MAX), "18446744073709551615");
}
