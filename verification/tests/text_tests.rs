use craftpath::text::{chars_of, parse_u16, parse_unsigned, str_contains, str_eq, trim_str};

#[test]
fn test_text_helpers() {
    assert_eq!(chars_of("ab"), vec!['a', 'b']);
    assert_eq!(trim_str("  a b \t"), "a b");
    assert_eq!(trim_str("   "), "");
    assert!(str_contains("attack speed", "ack s"));
    assert!(str_contains("abc", ""));
    assert!(!str_contains("ab", "abc"));
    assert!(str_eq("x", "x"));
    assert!(!str_eq("x", "X"));
    assert_eq!(parse_u16("+42"), Some(42));
    assert_eq!(parse_u16("65535"), Some(65535));
    assert_eq!(parse_u16("65536"), None);
    assert_eq!(parse_u16("+"), None);
    assert_eq!(parse_u16("-1"), None);
    assert_eq!(parse_u16("1a"), None);
    assert_eq!(parse_u16(""), None);
    assert_eq!(parse_unsigned("18446744073709551615", u64::MAX), Some(u64::MAX));
    assert_eq!(parse_unsigned("18446744073709551616", u64::MAX), None);
    assert_eq!(parse_unsigned("4294967296", u32::MAX as u64), None);
}

#[test]
fn test_is_whitespace_agrees_with_std_on_every_char() {
    for v in 0u32..=0x10FFFF {
        if let Some(c) = char::from_u32(v) {
            assert_eq!(craftpath::text::is_whitespace(c), c.is_whitespace(), "U+{:04X}", v);
        }
    }
}
