use ab_av1::text::{decimal_of, is_white_space, same_text, starts_with, trim, trim_end_matches};

#[test]
fn white_space_is_that_of_unicode() {
    for c in '\0'..=char::MAX {
        assert_eq!(is_white_space(c), c.is_whitespace(), "{c:?}");
    }
}

#[test]
fn trimming() {
    for s in ["", " ", "a", " \t a b \u{a0}\n", "\u{3000}x", "x\u{200b} "] {
        assert_eq!(trim(s), s.trim());
    }
    for s in ["", "/", "a//", "/a/b", "ä///"] {
        assert_eq!(trim_end_matches(s, '/'), s.trim_end_matches('/'));
    }
}

#[test]
fn prefixes() {
    assert!(starts_with("http://x", "http://"));
    assert!(!starts_with("http:/", "http://"));
    assert!(starts_with("", ""));
    assert!(starts_with("äb", "ä"));
    assert!(!same_text("a", "A"));
}

#[test]
fn decimals() {
    for n in [0, 9, 10, 99, 100, 1_000_001, u64::MAX] {
        assert_eq!(decimal_of(n), n.to_string());
    }
}
