use liment::parse::{parse_rfc3339_timestamp, trim_ascii_ws};

#[test]
fn parses_utc_timestamp() {
    assert_eq!(parse_rfc3339_timestamp("2024-01-15T12:30:00Z"), Ok(1_705_321_800));
}

#[test]
fn parses_without_zone_suffix_as_utc() {
    assert_eq!(parse_rfc3339_timestamp("2024-01-15T12:30:00"), Ok(1_705_321_800));
}

#[test]
fn parses_positive_offset() {
    // 12:30 at +05:30 is 07:00 UTC.
    assert_eq!(
        parse_rfc3339_timestamp("2024-01-15T12:30:00+05:30"),
        Ok(1_705_321_800 - 5 * 3_600 - 30 * 60)
    );
}

#[test]
fn parses_negative_offset() {
    assert_eq!(
        parse_rfc3339_timestamp("2024-01-15T12:30:00-08:00"),
        Ok(1_705_321_800 + 8 * 3_600)
    );
}

#[test]
fn parses_with_surrounding_whitespace() {
    assert_eq!(parse_rfc3339_timestamp("  2024-01-15T12:30:00Z \n"), Ok(1_705_321_800));
}

#[test]
fn parses_epoch() {
    assert_eq!(parse_rfc3339_timestamp("1970-01-01T00:00:00Z"), Ok(0));
}

#[test]
fn parses_leap_day() {
    assert_eq!(parse_rfc3339_timestamp("2000-02-29T00:00:00Z"), Ok(951_782_400));
}

#[test]
fn rejects_short_input() {
    assert_eq!(parse_rfc3339_timestamp("2024-01-15"), Err(()));
    assert_eq!(parse_rfc3339_timestamp(""), Err(()));
}

#[test]
fn rejects_non_digit_positions() {
    assert_eq!(parse_rfc3339_timestamp("20x4-01-15T12:30:00Z"), Err(()));
    assert_eq!(parse_rfc3339_timestamp("2024-01-15T12:3x:00Z"), Err(()));
}

#[test]
fn rejects_month_out_of_range() {
    assert_eq!(parse_rfc3339_timestamp("2024-13-01T00:00:00Z"), Err(()));
    assert_eq!(parse_rfc3339_timestamp("2024-00-01T00:00:00Z"), Err(()));
}

#[test]
fn subsecond_fraction_without_sign_keeps_offset_zero() {
    // The tail holds no sign character, so the offset stays zero.
    assert_eq!(parse_rfc3339_timestamp("2024-01-15T12:30:00.123"), Ok(1_705_321_800));
}

#[test]
fn trims_ascii_whitespace() {
    assert_eq!(trim_ascii_ws("  hello \t"), "hello");
    assert_eq!(trim_ascii_ws(""), "");
    assert_eq!(trim_ascii_ws(" \n "), "");
    assert_eq!(trim_ascii_ws("x"), "x");
}
