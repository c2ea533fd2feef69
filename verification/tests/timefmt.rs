use liment::calendar::{civil_from_unix, format_absolute_time, CivilDateTime};
use liment::time::{format_reset_time, two_digit_string, u64_string};

#[test]
fn reset_time_at_now_is_now() {
    assert_eq!(format_reset_time(1_000, 1_000), "now");
}

#[test]
fn reset_time_in_past_is_now() {
    assert_eq!(format_reset_time(999, 1_000), "now");
    assert_eq!(format_reset_time(-50_000, 1_000), "now");
}

#[test]
fn reset_time_ninety_minutes() {
    let now = 1_700_000_000;
    assert_eq!(format_reset_time(now + 90 * 60, now), "1h 30m");
}

#[test]
fn reset_time_two_days_three_hours() {
    let now = 1_700_000_000;
    assert_eq!(format_reset_time(now + 2 * 86_400 + 3 * 3_600, now), "2d 3h");
}

#[test]
fn reset_time_minutes_only() {
    let now = 12_345;
    assert_eq!(format_reset_time(now + 59, now), "0m");
    assert_eq!(format_reset_time(now + 60, now), "1m");
    assert_eq!(format_reset_time(now + 59 * 60, now), "59m");
}

#[test]
fn reset_time_unit_boundaries() {
    let now = 0;
    assert_eq!(format_reset_time(now + 3_600, now), "1h 0m");
    assert_eq!(format_reset_time(now + 86_400, now), "1d 0h");
    assert_eq!(format_reset_time(now + 86_399, now), "23h 59m");
}

#[test]
fn decimal_strings() {
    assert_eq!(u64_string(0), "0");
    assert_eq!(u64_string(7), "7");
    assert_eq!(u64_string(105), "105");
    assert_eq!(two_digit_string(3), "03");
    assert_eq!(two_digit_string(42), "42");
}

#[test]
fn civil_decomposition_epoch() {
    let c = civil_from_unix(0, 0);
    assert_eq!(
        c,
        CivilDateTime { year: 1970, month: 1, day: 1, hour: 0, minute: 0, second: 0 }
    );
}

#[test]
fn civil_decomposition_modern_date() {
    // 2024-01-15T12:30:00Z
    let c = civil_from_unix(1_705_321_800, 0);
    assert_eq!(
        c,
        CivilDateTime { year: 2024, month: 1, day: 15, hour: 12, minute: 30, second: 0 }
    );
}

#[test]
fn civil_decomposition_before_epoch_leap_day() {
    // 1960-02-29T23:59:59Z
    let c = civil_from_unix(-310_435_201, 0);
    assert_eq!(
        c,
        CivilDateTime { year: 1960, month: 2, day: 29, hour: 23, minute: 59, second: 59 }
    );
}

#[test]
fn civil_decomposition_leap_day_2000() {
    // 2000-02-29T00:00:00Z
    let c = civil_from_unix(951_782_400, 0);
    assert_eq!(
        c,
        CivilDateTime { year: 2000, month: 2, day: 29, hour: 0, minute: 0, second: 0 }
    );
}

#[test]
fn civil_decomposition_applies_offset() {
    // One hour east of UTC pushes 23:30 into the next day.
    let c = civil_from_unix(1_705_361_400, 3_600);
    assert_eq!(
        c,
        CivilDateTime { year: 2024, month: 1, day: 16, hour: 0, minute: 30, second: 0 }
    );
}

#[test]
fn absolute_time_formatting() {
    assert_eq!(format_absolute_time(1_705_321_800, 0), "15.01, 12:30");
    assert_eq!(format_absolute_time(1_705_321_800, 3_600), "15.01, 13:30");
    assert_eq!(format_absolute_time(0, 0), "01.01, 00:00");
}
