use vitality_bot::text::{is_white_space_char, signed_to_string, text_eq, trim_end};

#[test]
fn decimal_text_of_zero() {
    assert_eq!(signed_to_string(0), "0");
}

#[test]
fn decimal_text_of_negative_numbers() {
    assert_eq!(signed_to_string(-42), "-42");
    assert_eq!(signed_to_string(i64::MIN), "-9223372036854775808");
}

#[test]
fn decimal_text_matches_display() {
    for n in [1i64, 9, 10, 99, 100, 12345, i64::MAX, -1, -10, -987654321] {
        assert_eq!(signed_to_string(n), n.to_string());
    }
}

#[test]
fn trim_end_removes_only_trailing_white_space() {
    assert_eq!(trim_end("  a b \n\t "), "  a b");
    assert_eq!(trim_end("abc"), "abc");
    assert_eq!(trim_end(""), "");
    assert_eq!(trim_end(" \n "), "");
    assert_eq!(trim_end("x\u{3000}\u{a0}"), "x");
}

#[test]
fn trim_end_agrees_with_std() {
    for s in ["a\n\n", "é \u{2028}", "\u{200b}", "tab\t", "🏆 \r\n"] {
        assert_eq!(trim_end(s), s.trim_end());
    }
}

#[test]
fn white_space_agrees_with_std() {
    for c in [' ', '\t', '\n', '\u{b}', '\u{c}', '\r', '\u{85}', '\u{a0}', '\u{1680}', '\u{2000}',
        '\u{200a}', '\u{200b}', '\u{2028}', '\u{2029}', '\u{202f}', '\u{205f}', '\u{3000}', 'a',
        '\u{feff}', '\u{1f3c6}'] {
        assert_eq!(is_white_space_char(c), c.is_whitespace(), "{:?}", c);
    }
}

#[test]
fn text_equality() {
    assert!(text_eq("fr", "fr"));
    assert!(!text_eq("fr", "en"));
    assert!(!text_eq("fr", "fra"));
    assert!(text_eq("", ""));
}
