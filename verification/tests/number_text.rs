//! Tests of the decimal text helpers shared by the resolver.

use auth_example::numtext::{parse_u16, parse_u64};

#[test]
fn u16_parsing_accepts_the_full_range() {
    assert_eq!(parse_u16(b"0"), Some(0));
    assert_eq!(parse_u16(b"1337"), Some(1337));
    assert_eq!(parse_u16(b"65535"), Some(65535));
    assert_eq!(parse_u16(b"00080"), Some(80));
}

#[test]
fn u16_parsing_rejects_anything_else() {
    assert_eq!(parse_u16(b"65536"), None);
    assert_eq!(parse_u16(b""), None);
    assert_eq!(parse_u16(b"-1"), None);
    assert_eq!(parse_u16(b"+1"), None);
    assert_eq!(parse_u16(b"12a"), None);
    assert_eq!(parse_u16(b" 80"), None);
}

#[test]
fn u64_parsing_handles_the_boundary() {
    assert_eq!(parse_u64(b"18446744073709551615"), Some(u64::MAX));
    assert_eq!(parse_u64(b"18446744073709551616"), None);
    assert_eq!(parse_u64(b"300"), Some(300));
    assert_eq!(parse_u64(b"999999999999999999999999"), None);
}
