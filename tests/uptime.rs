use host_snapshot::uptime::{format_uptime, push_decimal};

#[test]
fn zero_seconds_is_zero_minutes() {
    assert_eq!(format_uptime(0), "0m");
}

#[test]
fn seconds_only_still_show_minutes() {
    assert_eq!(format_uptime(5), "0m 5s");
}

#[test]
fn minutes_and_seconds() {
    assert_eq!(format_uptime(65), "1m 5s");
}

#[test]
fn whole_hour_shows_zero_minutes() {
    assert_eq!(format_uptime(3600), "1h 0m");
}

#[test]
fn hours_minutes_seconds() {
    assert_eq!(format_uptime(3661), "1h 1m 1s");
}

#[test]
fn hours_and_seconds_keep_zero_minutes() {
    assert_eq!(format_uptime(7205), "2h 0m 5s");
}

#[test]
fn whole_minutes_omit_seconds() {
    assert_eq!(format_uptime(120), "2m");
}

#[test]
fn multi_digit_components() {
    assert_eq!(format_uptime(100 * 3600 + 59 * 60 + 59), "100h 59m 59s");
}

#[test]
fn largest_input() {
    assert_eq!(format_uptime(u64::MAX), "5124095576030431h 0m 15s");
}

#[test]
fn never_empty_or_padded() {
    for n in [0u64, 1, 59, 60, 61, 3599, 3600, 3601, 86399, 86400, 1_000_000_007, u64::MAX] {
        let s = format_uptime(n);
        assert!(!s.is_empty());
        assert_eq!(s.trim(), s);
        assert!(!s.contains("  "));
    }
}

#[test]
fn decimal_digits_appended() {
    let mut s = String::from("x=");
    push_decimal(&mut s, 0);
    push_decimal(&mut s, 10);
    push_decimal(&mut s, 18446744073709551615);
    assert_eq!(s, "x=01018446744073709551615");
}
