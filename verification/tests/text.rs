use tokimo_translate::text::trim_whitespace;

#[test]
fn trim_removes_surrounding_white_space() {
    assert_eq!(trim_whitespace("  hello world \n"), "hello world");
    assert_eq!(trim_whitespace("\t\r\n x \u{3000}"), "x");
    assert_eq!(trim_whitespace("inner  space"), "inner  space");
}

#[test]
fn trim_of_blank_is_empty() {
    assert_eq!(trim_whitespace(""), "");
    assert_eq!(trim_whitespace(" \n\t "), "");
}

#[test]
fn trim_matches_std() {
    for s in ["  Artificial intelligence. ", "人工智能\u{a0}", "\u{2028}a b\u{85}", "x", "\u{1680}\u{200a}y\u{202f}\u{205f}", "\u{200b}z\u{feff}"] {
        assert_eq!(trim_whitespace(s), s.trim());
    }
}
