use warper::fixed::{decimal_string, format_micros, parse_micros};

#[test]
fn parse_whole_number() {
    assert_eq!(parse_micros("2"), Some(2_000_000));
    assert_eq!(parse_micros("800"), Some(800_000_000));
    assert_eq!(parse_micros("0"), Some(0));
}

#[test]
fn parse_signed() {
    assert_eq!(parse_micros("+7"), Some(7_000_000));
    assert_eq!(parse_micros("-3.25"), Some(-3_250_000));
    assert_eq!(parse_micros("-0.5"), Some(-500_000));
}

#[test]
fn parse_fractions() {
    assert_eq!(parse_micros("0.5"), Some(500_000));
    assert_eq!(parse_micros(".5"), Some(500_000));
    assert_eq!(parse_micros("17."), Some(17_000_000));
    assert_eq!(parse_micros("1.234567890"), Some(1_234_567));
}

#[test]
fn parse_rejects_non_numerals() {
    assert_eq!(parse_micros(""), None);
    assert_eq!(parse_micros("abc"), None);
    assert_eq!(parse_micros("."), None);
    assert_eq!(parse_micros("-"), None);
    assert_eq!(parse_micros("+."), None);
    assert_eq!(parse_micros("1.2.3"), None);
    assert_eq!(parse_micros("1e3"), None);
    assert_eq!(parse_micros("inches / pixels"), None);
    assert_eq!(parse_micros(" 2"), None);
}

#[test]
fn parse_saturates_huge_magnitudes() {
    assert_eq!(parse_micros("99999999999"), Some(4_294_967_296_000_000));
    assert_eq!(parse_micros("-99999999999"), Some(-4_294_967_296_000_000));
    assert_eq!(parse_micros("4294967296"), Some(4_294_967_296_000_000));
    assert_eq!(parse_micros("4294967295"), Some(4_294_967_295_000_000));
}

#[test]
fn decimal_string_digits() {
    assert_eq!(decimal_string(0), "0");
    assert_eq!(decimal_string(7), "7");
    assert_eq!(decimal_string(12), "12");
    assert_eq!(decimal_string(905_000), "905000");
    assert_eq!(decimal_string(u64::MAX), "18446744073709551615");
}

#[test]
fn format_zero_decimals_rounds_half_away() {
    assert_eq!(format_micros(0, 0), "0");
    assert_eq!(format_micros(1_500_000, 0), "2");
    assert_eq!(format_micros(999_999, 0), "1");
    assert_eq!(format_micros(360_000_000, 0), "360");
}

#[test]
fn format_one_and_two_decimals() {
    assert_eq!(format_micros(5_000_000, 1), "5.0");
    assert_eq!(format_micros(2_500_000, 1), "2.5");
    assert_eq!(format_micros(1_234_999, 2), "1.23");
    assert_eq!(format_micros(1_005_000, 2), "1.01");
    assert_eq!(format_micros(-40_000, 1), "-0.0");
    assert_eq!(format_micros(-1_250_000, 1), "-1.3");
}

#[test]
fn format_round_trip_of_displayed_value() {
    let shown = format_micros(2_500_000, 1);
    assert_eq!(parse_micros(&shown), Some(2_500_000));
}
