use mcp_await::text::{
    chars_of, contains, decimal_string, parse_u16, same_text, signed_decimal_string,
    strip_prefix, trimmed,
};

#[test]
fn decimal_renders_like_format() {
    for n in [0u64, 7, 10, 99, 100, 65535, 4999999, u64::MAX] {
        assert_eq!(decimal_string(n), format!("{}", n));
    }
}

#[test]
fn signed_decimal_renders_like_format() {
    for n in [0i32, 1, -1, 42, -300, i32::MAX, i32::MIN] {
        assert_eq!(signed_decimal_string(n), format!("{}", n));
    }
}

#[test]
fn trim_matches_std() {
    for s in ["", "   ", " a ", "\n200\n", "\t x y \r\n", "\u{3000}wide\u{a0}", "no-space"] {
        assert_eq!(trimmed(s), s.trim());
    }
}

#[test]
fn contains_matches_std() {
    let cases = [
        ("status: failed\n", "failed"),
        ("ok\n", "fatal"),
        ("abc", ""),
        ("", "a"),
        ("aaab", "aab"),
        ("héllo wörld", "ö"),
    ];
    for (h, n) in cases {
        assert_eq!(contains(h, n), h.contains(n), "{:?} in {:?}", n, h);
    }
}

#[test]
fn strip_prefix_matches_std() {
    for (s, p) in [("watch://port-1", "watch://"), ("http://x", "watch://"), ("watch://", "watch://"), ("w", "watch://")] {
        assert_eq!(strip_prefix(s, p), s.strip_prefix(p).map(|t| t.to_string()));
    }
}

#[test]
fn parse_u16_matches_std() {
    for s in ["200", "000", "+7", "+", "-1", "", "65535", "65536", "99999999", "2 0", "0404", "1a"] {
        assert_eq!(parse_u16(s), s.parse::<u16>().ok(), "input {:?}", s);
    }
}

#[test]
fn same_text_and_chars() {
    assert!(same_text("create", "create"));
    assert!(!same_text("create", "created"));
    assert!(!same_text("modify", "delete"));
    assert_eq!(chars_of("añb"), vec!['a', 'ñ', 'b']);
}
