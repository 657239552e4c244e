use shape_editor::decimal::{format_decimal, parse_coordinate, parse_decimal, parse_radius};

#[test]
fn formats_whole_numbers() {
    assert_eq!(format_decimal(0), "0");
    assert_eq!(format_decimal(7), "7");
    assert_eq!(format_decimal(10), "10");
    assert_eq!(format_decimal(-5), "-5");
    assert_eq!(format_decimal(1234567890), "1234567890");
    assert_eq!(format_decimal(i64::MAX), "9223372036854775807");
    assert_eq!(format_decimal(i64::MIN), "-9223372036854775808");
}

#[test]
fn parses_whole_numbers() {
    assert_eq!(parse_decimal("0"), Some(0));
    assert_eq!(parse_decimal("-0"), Some(0));
    assert_eq!(parse_decimal("+0"), Some(0));
    assert_eq!(parse_decimal("42"), Some(42));
    assert_eq!(parse_decimal("-42"), Some(-42));
    assert_eq!(parse_decimal("+42"), Some(42));
    assert_eq!(parse_decimal("007"), Some(7));
    assert_eq!(parse_decimal("9223372036854775807"), Some(i64::MAX));
    assert_eq!(parse_decimal("-9223372036854775808"), Some(i64::MIN));
    assert_eq!(parse_decimal("0000000000000000000000000000000000000012"), Some(12));
}

#[test]
fn parse_rejects_other_text() {
    for text in ["", "-", "+", "1.0", "1e5", "a", "1a", "a1", " 1", "1 ", "+-1", "1-", "٣", "1_000"] {
        assert_eq!(parse_decimal(text), None, "{:?}", text);
    }
}

#[test]
fn parse_rejects_numbers_beyond_64_bits() {
    assert_eq!(parse_decimal("9223372036854775808"), None);
    assert_eq!(parse_decimal("-9223372036854775809"), None);
    assert_eq!(parse_decimal("18446744073709551616"), None);
    assert_eq!(parse_decimal("99999999999999999999999999"), None);
    assert_eq!(parse_decimal("-99999999999999999999999999"), None);
    assert_eq!(parse_decimal("99999999999999999999999999x"), None);
}

#[test]
fn parse_reads_what_format_writes() {
    for v in [0, 1, -1, 9, 10, 99, 100, -100, 2147483647, -2147483648, i64::MAX, i64::MIN] {
        assert_eq!(parse_decimal(&format_decimal(v)), Some(v));
    }
}

#[test]
fn coordinates_and_radii_have_their_ranges() {
    assert_eq!(parse_coordinate("2147483647"), Some(2147483647));
    assert_eq!(parse_coordinate("-2147483648"), Some(-2147483648));
    assert_eq!(parse_coordinate("2147483648"), None);
    assert_eq!(parse_coordinate("-2147483649"), None);
    assert_eq!(parse_coordinate("x"), None);
    assert_eq!(parse_radius("0"), Some(0));
    assert_eq!(parse_radius("4294967295"), Some(4294967295));
    assert_eq!(parse_radius("4294967296"), None);
    assert_eq!(parse_radius("-1"), None);
    assert_eq!(parse_radius("-0"), Some(0));
    assert_eq!(parse_radius(""), None);
}
