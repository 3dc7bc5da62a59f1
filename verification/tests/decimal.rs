use limit_size::decimal::{parse_content_length, render_decimal};

#[test]
fn digits_declare_a_length() {
    assert_eq!(parse_content_length("150"), Some(150));
    assert_eq!(parse_content_length("0"), Some(0));
    assert_eq!(parse_content_length("512000"), Some(512000));
    assert_eq!(parse_content_length("00150"), Some(150));
    assert_eq!(parse_content_length("+150"), Some(150));
    assert_eq!(parse_content_length("+0"), Some(0));
}

#[test]
fn the_largest_length_is_u64_max() {
    assert_eq!(parse_content_length("18446744073709551615"), Some(u64::MAX));
    assert_eq!(parse_content_length("18446744073709551616"), None);
    assert_eq!(parse_content_length("18446744073709551620"), None);
    assert_eq!(parse_content_length("99999999999999999999"), None);
    assert_eq!(parse_content_length("184467440737095516150"), None);
    assert_eq!(parse_content_length("000018446744073709551615"), Some(u64::MAX));
    assert_eq!(parse_content_length("9223372036854775808"), Some(1 << 63));
}

#[test]
fn anything_else_declares_nothing() {
    assert_eq!(parse_content_length(""), None);
    assert_eq!(parse_content_length("+"), None);
    assert_eq!(parse_content_length("-"), None);
    assert_eq!(parse_content_length("-5"), None);
    assert_eq!(parse_content_length("-0"), None);
    assert_eq!(parse_content_length("++5"), None);
    assert_eq!(parse_content_length("5+"), None);
    assert_eq!(parse_content_length(" 150"), None);
    assert_eq!(parse_content_length("150 "), None);
    assert_eq!(parse_content_length("1 50"), None);
    assert_eq!(parse_content_length("1e3"), None);
    assert_eq!(parse_content_length("1.0"), None);
    assert_eq!(parse_content_length("0x10"), None);
    assert_eq!(parse_content_length("abc"), None);
    assert_eq!(parse_content_length("150, 150"), None);
    assert_eq!(parse_content_length("/"), None);
    assert_eq!(parse_content_length(":"), None);
    assert_eq!(parse_content_length("\u{ff11}\u{ff15}\u{ff10}"), None);
    assert_eq!(parse_content_length("15\u{e9}"), None);
    assert_eq!(parse_content_length("+\u{e9}"), None);
    assert_eq!(parse_content_length("99999999999999999999x"), None);
}

#[test]
fn a_long_run_of_zeros_is_read() {
    let mut text = "0".repeat(10000);
    text.push_str("42");
    assert_eq!(parse_content_length(&text), Some(42));
}

#[test]
fn numbers_are_written_without_leading_zeros() {
    assert_eq!(render_decimal(0), "0");
    assert_eq!(render_decimal(7), "7");
    assert_eq!(render_decimal(9), "9");
    assert_eq!(render_decimal(10), "10");
    assert_eq!(render_decimal(413), "413");
    assert_eq!(render_decimal(512000), "512000");
    assert_eq!(render_decimal(1234567890), "1234567890");
    assert_eq!(render_decimal(u64::MAX), "18446744073709551615");
}

#[test]
fn what_is_written_can_be_read() {
    for n in [0u64, 1, 9, 10, 99, 100, 12345, 512000, u32::MAX as u64, u64::MAX - 1, u64::MAX] {
        assert_eq!(parse_content_length(&render_decimal(n)), Some(n));
    }
}
