//! The verified string helpers agree with std on concrete inputs.

use valence_platform::text::{
    after_last, char_is_whitespace, concat2, concat3, contains, split_once, starts_with,
    str_eq, str_lt, strip_prefix, strip_prefix_or_keep, trim, trim_char, usize_to_decimal,
};

#[test]
fn prefixes_and_search() {
    assert!(starts_with("valence_deletion_run:x", "valence_deletion_run:"));
    assert!(!starts_with("val", "valence"));
    assert!(contains("surrealkv", "surreal"));
    assert!(contains("abc", ""));
    assert!(!contains("sqlite", "postgres"));
    assert_eq!(strip_prefix("t:abc", "t:"), Some("abc".to_string()));
    assert_eq!(strip_prefix("abc", "t:"), None);
    assert_eq!(strip_prefix_or_keep("abc", "t:"), "abc");
}

#[test]
fn splitting() {
    for s in ["widget:w:1", "nocolon", ":lead", "trail:"] {
        assert_eq!(
            split_once(s, ':'),
            s.split_once(':').map(|(a, b)| (a.to_string(), b.to_string()))
        );
        assert_eq!(after_last(s, ':'), s.rsplit(':').next().unwrap());
    }
}

#[test]
fn trimming_matches_std() {
    for s in ["  a b  ", "\t\n x\u{3000}", "", "   ", "\u{a0}y\u{85}", "zz"] {
        assert_eq!(trim(s), s.trim());
        assert_eq!(trim_char(s, ' '), s.trim_matches(' '));
    }
    assert_eq!(trim_char("\"quoted\"", '"'), "quoted");
    for c in [' ', '\t', '\u{2028}', 'a', '\u{200b}', '\u{feff}'] {
        assert_eq!(char_is_whitespace(c), c.is_whitespace());
    }
}

#[test]
fn ordering_and_equality() {
    let words = ["", "a", "ab", "b", "B", "ä", "a\u{0}"];
    for x in words {
        for y in words {
            assert_eq!(str_lt(x, y), x < y, "{x:?} < {y:?}");
            assert_eq!(str_eq(x, y), x == y);
        }
    }
}

#[test]
fn numbers_and_concatenation() {
    for n in [0usize, 7, 10, 1000, 987654321] {
        assert_eq!(usize_to_decimal(n), n.to_string());
    }
    assert_eq!(concat2("a", "b"), "ab");
    assert_eq!(concat3("a", ":", "b"), "a:b");
}
