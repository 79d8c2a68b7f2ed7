use miqbot_relay::text::{char_is_whitespace, str_eq, str_is_blank, strip_whitespace, u64_to_decimal};

#[test]
fn whitespace_agrees_with_the_standard_library() {
    for u in 0..=0x3100u32 {
        if let Some(c) = char::from_u32(u) {
            assert_eq!(char_is_whitespace(c), c.is_whitespace(), "U+{:04X}", u);
        }
    }
    for c in ['\u{feff}', '\u{10000}', '\u{10ffff}', '\u{200b}'] {
        assert_eq!(char_is_whitespace(c), c.is_whitespace());
    }
}

#[test]
fn blank_means_empty_after_trimming() {
    for s in ["", " ", "\t\r\n", "\u{a0}\u{2003}\u{3000}", " a ", "a", "\u{200b}", " 体 "] {
        assert_eq!(str_is_blank(s), s.trim().is_empty(), "{:?}", s);
    }
}

#[test]
fn stripping_removes_every_whitespace_character() {
    assert_eq!(strip_whitespace(""), "");
    assert_eq!(strip_whitespace(" \t\n"), "");
    assert_eq!(strip_whitespace("a b\tc\nd"), "abcd");
    assert_eq!(strip_whitespace("  いま  体力 20\u{3000}。 "), "いま体力20。");
    let s = "Current dimension=end, hp=1, hunger=2. moving with caution.";
    assert_eq!(strip_whitespace(s), s.split_whitespace().collect::<String>());
}

#[test]
fn decimal_formats_like_display() {
    for n in [0u64, 1, 9, 10, 11, 99, 100, 101, 12_345, 4_294_967_295, 4_294_967_296, u64::MAX - 1, u64::MAX] {
        assert_eq!(u64_to_decimal(n), n.to_string());
    }
}

#[test]
fn string_equality() {
    assert!(str_eq("", ""));
    assert!(str_eq("abc", "abc"));
    assert!(str_eq("体力", "体力"));
    assert!(!str_eq("abc", "abd"));
    assert!(!str_eq("abc", "ab"));
    assert!(!str_eq("", " "));
    assert!(!str_eq("é", "e\u{301}"));
}
