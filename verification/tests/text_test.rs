use qbittorrent_mcp_rs::text::{i64_text, u64_text, parse_i64, parse_u64, bool_text, starts_with, ends_with, IntErrorKind};

#[test]
fn decimal_rendering() {
    assert_eq!(u64_text(0), "0");
    assert_eq!(u64_text(8080), "8080");
    assert_eq!(u64_text(u64::MAX), "18446744073709551615");
    assert_eq!(i64_text(-42), "-42");
    assert_eq!(i64_text(i64::MIN), "-9223372036854775808");
    assert_eq!(bool_text(true), "true");
}

#[test]
fn decimal_parsing_round_trips() {
    for n in [0i64, 1, -1, 42, i64::MAX, i64::MIN, -9000] {
        assert_eq!(parse_i64(&i64_text(n)), Ok(n));
    }
    assert_eq!(parse_i64("+17"), Ok(17));
    assert_eq!(parse_u64("18446744073709551615"), Ok(u64::MAX));
}

#[test]
fn decimal_parsing_errors() {
    assert_eq!(parse_i64(""), Err(IntErrorKind::Empty));
    assert_eq!(parse_i64("-"), Err(IntErrorKind::InvalidDigit));
    assert_eq!(parse_i64("12a"), Err(IntErrorKind::InvalidDigit));
    assert_eq!(parse_i64("9223372036854775808"), Err(IntErrorKind::PosOverflow));
    assert_eq!(parse_i64("-9223372036854775809"), Err(IntErrorKind::NegOverflow));
    assert_eq!(parse_u64("-1"), Err(IntErrorKind::InvalidDigit));
    assert_eq!(parse_u64("18446744073709551616"), Err(IntErrorKind::PosOverflow));
}

#[test]
fn prefixes_and_suffixes() {
    assert!(starts_with("https://x", "https://"));
    assert!(!starts_with("http", "https://"));
    assert!(ends_with("abc/", "/"));
    assert!(!ends_with("", "/"));
}
