use statserver::decimal::{parse_count, to_decimal};

#[test]
fn renders_zero() {
    assert_eq!(to_decimal(0), "0");
}

#[test]
fn renders_single_and_multi_digit_numbers() {
    assert_eq!(to_decimal(7), "7");
    assert_eq!(to_decimal(10), "10");
    assert_eq!(to_decimal(12345), "12345");
    assert_eq!(to_decimal(1000000), "1000000");
}

#[test]
fn renders_the_largest_count() {
    assert_eq!(to_decimal(usize::MAX), "18446744073709551615");
}

#[test]
fn parses_plain_counts() {
    assert_eq!(parse_count("0"), Some(0));
    assert_eq!(parse_count("42"), Some(42));
    assert_eq!(parse_count("18446744073709551615"), Some(usize::MAX));
}

#[test]
fn parses_leading_zeroes_by_value() {
    assert_eq!(parse_count("007"), Some(7));
}

#[test]
fn rejects_empty_text() {
    assert_eq!(parse_count(""), None);
}

#[test]
fn rejects_non_digits() {
    assert_eq!(parse_count("4a"), None);
    assert_eq!(parse_count("-1"), None);
    assert_eq!(parse_count("1.5"), None);
    assert_eq!(parse_count(" 1"), None);
}

#[test]
fn rejects_overflowing_counts() {
    assert_eq!(parse_count("18446744073709551616"), None);
    assert_eq!(parse_count("99999999999999999999999"), None);
}

#[test]
fn rendering_then_parsing_returns_the_count() {
    for n in [0usize, 1, 9, 10, 99, 100, 4096, 123456789, usize::MAX] {
        assert_eq!(parse_count(&to_decimal(n)), Some(n));
    }
}
