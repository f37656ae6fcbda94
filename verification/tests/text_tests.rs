use form_tool::text::{parse_u32, trim_str, u32_to_string};

#[test]
fn trim_removes_leading_and_trailing_spaces() {
    assert_eq!(trim_str("  hi\t"), "hi");
    assert_eq!(trim_str("hi"), "hi");
    assert_eq!(trim_str("   "), "");
    assert_eq!(trim_str(""), "");
    assert_eq!(trim_str("\n a b \r"), "a b");
}

#[test]
fn parse_u32_accepts_digit_strings() {
    assert_eq!(parse_u32("0"), Some(0));
    assert_eq!(parse_u32("25"), Some(25));
    assert_eq!(parse_u32("0042"), Some(42));
    assert_eq!(parse_u32("4294967295"), Some(u32::MAX));
}

#[test]
fn parse_u32_rejects_bad_input() {
    assert_eq!(parse_u32(""), None);
    assert_eq!(parse_u32("12a"), None);
    assert_eq!(parse_u32("-3"), None);
    assert_eq!(parse_u32(" 7"), None);
    assert_eq!(parse_u32("4294967296"), None);
}

#[test]
fn u32_to_string_prints_decimal() {
    assert_eq!(u32_to_string(0), "0");
    assert_eq!(u32_to_string(7), "7");
    assert_eq!(u32_to_string(1234), "1234");
    assert_eq!(u32_to_string(u32::MAX), "4294967295");
}

#[test]
fn decimal_round_trip() {
    for v in [0u32, 1, 9, 10, 99, 100, 65535, u32::MAX] {
        assert_eq!(parse_u32(&u32_to_string(v)), Some(v));
    }
}
