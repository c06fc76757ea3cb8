use frontend::digits::{parse_u32, u32_to_decimal};

#[test]
fn parses_a_plain_number() {
    assert_eq!(parse_u32("42"), Some(42));
}

#[test]
fn parses_zero_and_leading_zeros() {
    assert_eq!(parse_u32("0"), Some(0));
    assert_eq!(parse_u32("007"), Some(7));
}

#[test]
fn parses_a_leading_plus_sign() {
    assert_eq!(parse_u32("+42"), Some(42));
}

#[test]
fn rejects_text_that_is_not_a_number() {
    assert_eq!(parse_u32("not-a-number"), None);
    assert_eq!(parse_u32("42a"), None);
    assert_eq!(parse_u32("4 2"), None);
    assert_eq!(parse_u32(" 42"), None);
    assert_eq!(parse_u32("42 "), None);
    assert_eq!(parse_u32("-1"), None);
    assert_eq!(parse_u32("4.2"), None);
}

#[test]
fn rejects_empty_and_lone_plus() {
    assert_eq!(parse_u32(""), None);
    assert_eq!(parse_u32("+"), None);
}

#[test]
fn parses_the_largest_value_and_rejects_overflow() {
    assert_eq!(parse_u32("4294967295"), Some(u32::MAX));
    assert_eq!(parse_u32("4294967296"), None);
    assert_eq!(parse_u32("99999999999999999999"), None);
}

#[test]
fn formats_small_numbers() {
    assert_eq!(u32_to_decimal(0), "0");
    assert_eq!(u32_to_decimal(7), "7");
    assert_eq!(u32_to_decimal(10), "10");
    assert_eq!(u32_to_decimal(42), "42");
}

#[test]
fn formats_the_largest_value() {
    assert_eq!(u32_to_decimal(u32::MAX), "4294967295");
}

#[test]
fn format_then_parse_gives_the_value_back() {
    for n in [0u32, 1, 9, 10, 99, 100, 12345, 4000000000, u32::MAX] {
        assert_eq!(parse_u32(&u32_to_decimal(n)), Some(n));
    }
}
