use cockpit_storage::text::{is_blank_text, push_decimal, str_less, to_ascii_lowercase, trim_whitespace};

#[test]
fn trim_removes_unicode_white_space_at_both_ends() {
    assert_eq!(trim_whitespace(" \t\u{3000}C:\\data \n"), "C:\\data");
    assert_eq!(trim_whitespace("a b"), "a b");
    assert_eq!(trim_whitespace("   "), "");
}

#[test]
fn blank_text_is_empty_or_white_space() {
    assert!(is_blank_text(""));
    assert!(is_blank_text(" \u{00A0}\t"));
    assert!(!is_blank_text(" x "));
}

#[test]
fn ascii_lowercase_keeps_other_characters() {
    assert_eq!(to_ascii_lowercase("C:\\Users\\ÄBC-Dir"), "c:\\users\\Äbc-dir");
    assert_eq!(to_ascii_lowercase(""), "");
}

#[test]
fn decimal_rendering() {
    let mut s = String::from("leaf-");
    push_decimal(&mut s, 0);
    assert_eq!(s, "leaf-0");
    let mut t = String::new();
    push_decimal(&mut t, 1207);
    assert_eq!(t, "1207");
    let mut u = String::new();
    push_decimal(&mut u, usize::MAX);
    assert_eq!(u, usize::MAX.to_string());
}

#[test]
fn lexicographic_order_matches_str() {
    let words = ["", "a", "ab", "b", "B", "äb", "aa", "cursor", "codebuddy"];
    for x in words {
        for y in words {
            assert_eq!(str_less(x, y), x < y, "{x:?} < {y:?}");
        }
    }
}
