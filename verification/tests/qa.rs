use rusty_dasher::qa::{find_from, parse_u32_bytes, qa_matrix_force_ms, query_param_u32, trim_bounds};

fn q(search: &str, key: &str) -> Option<u32> {
    query_param_u32(search.as_bytes(), key.as_bytes())
}

#[test]
fn query_params() {
    assert_eq!(q("?qa_matrix=1&qa_go_ms=3000", "qa_go_ms"), Some(3000));
    assert_eq!(q("?qa_go_ms=42", "qa_go_ms"), Some(42));
    assert_eq!(q("?a=1&b=2", "b"), Some(2));
    assert_eq!(q("?a=1&b=2", "c"), None);
    // Empty or non-numeric values.
    assert_eq!(q("?a=&b=2", "a"), None);
    assert_eq!(q("?a=x1", "a"), None);
    assert_eq!(q("?a=-1", "a"), None);
    assert_eq!(q("?a=+7", "a"), Some(7));
    assert_eq!(q("?a=+", "a"), None);
    assert_eq!(q("?a=007", "a"), Some(7));
    // Whitespace around the value is trimmed.
    assert_eq!(q("?a= 12 &b", "a"), Some(12));
    // u32 range.
    assert_eq!(q("?a=4294967295", "a"), Some(u32::MAX));
    assert_eq!(q("?a=4294967296", "a"), None);
    assert_eq!(q("?a=99999999999999999999x", "a"), None);
    // The first `key=` wins, even inside a longer key name.
    assert_eq!(q("?xa=5&a=6", "a"), Some(5));
    // A value runs until the next `key=` when there is no `&`.
    assert_eq!(q("?a=12a=3", "a"), Some(12));
    assert_eq!(q("?a=1a=2", "a"), Some(1));
}

#[test]
fn force_delays() {
    assert_eq!(qa_matrix_force_ms(b"?foo=1"), None);
    assert_eq!(qa_matrix_force_ms(b""), None);
    assert_eq!(qa_matrix_force_ms(b"?qa_matrix=1"), Some(2200));
    assert_eq!(qa_matrix_force_ms(b"?qa_matrix=1&e2e=1"), Some(22500));
    assert_eq!(qa_matrix_force_ms(b"?qa_matrix=1&qa_go_ms=3000"), Some(3000));
    assert_eq!(qa_matrix_force_ms(b"?qa_matrix=1&qa_go_ms=10"), Some(500));
    assert_eq!(qa_matrix_force_ms(b"?qa_matrix=1&qa_go_ms=999999"), Some(120000));
    // A bad qa_go_ms falls back to the e2e / default delays.
    assert_eq!(qa_matrix_force_ms(b"?qa_matrix=1&qa_go_ms=soon&e2e=1"), Some(22500));
    assert_eq!(qa_matrix_force_ms(b"?qa_matrix=10"), Some(2200));
}

#[test]
fn byte_helpers() {
    assert_eq!(find_from(b"abcabc", b"bc", 0), Some(1));
    assert_eq!(find_from(b"abcabc", b"bc", 2), Some(4));
    assert_eq!(find_from(b"abcabc", b"bd", 0), None);
    assert_eq!(find_from(b"ab", b"abc", 0), None);
    assert_eq!(find_from(b"ab", b"", 1), Some(1));
    assert_eq!(trim_bounds(b"  x y \t"), (2, 5));
    assert_eq!(trim_bounds(b"   "), (3, 3));
    assert_eq!(parse_u32_bytes(b"123"), Some(123));
    assert_eq!(parse_u32_bytes(b""), None);
    assert_eq!(parse_u32_bytes(b"1 2"), None);
}

#[test]
fn unicode_whitespace_is_trimmed() {
    // `str::trim` removes every `char::is_whitespace` character.
    assert_eq!(q("?a=\u{a0}123\u{a0}&b=1", "a"), Some(123));
    assert_eq!(q("?a=\u{3000}45\u{2003}", "a"), Some(45));
    assert_eq!(q("?a=\u{85}\u{1680}\u{2028}\u{2029}\u{202f}\u{205f}7\u{200a}", "a"), Some(7));
    // Zero-width space and U+001F are not whitespace.
    assert_eq!(q("?a=\u{200b}5", "a"), None);
    assert_eq!(q("?a=\u{1f}5", "a"), None);
    // Only whitespace: empty after trimming.
    assert_eq!(q("?a=\u{a0}\u{3000}", "a"), None);
    // A character that merely ends in a whitespace-like byte is kept.
    assert_eq!(q("?a=5\u{c5}", "a"), None);
    assert_eq!(trim_bounds("\u{a0} x\u{3000}".as_bytes()), (3, 4));
    for c in ['\u{85}', '\u{a0}', '\u{1680}', '\u{2000}', '\u{200a}', '\u{2028}', '\u{2029}', '\u{202f}', '\u{205f}', '\u{3000}'] {
        assert!(c.is_whitespace());
        let s = format!("{c}9{c}");
        assert_eq!(trim_bounds(s.as_bytes()), (c.len_utf8(), c.len_utf8() + 1));
    }
}

#[test]
fn trim_agrees_with_str_trim_on_every_char() {
    for c in (0u32..=0x10FFFF).filter_map(char::from_u32) {
        for s in [format!("{c}"), format!("{c}1{c}"), format!("1{c}1")] {
            let (lo, hi) = trim_bounds(s.as_bytes());
            assert_eq!(&s[lo..hi], s.trim(), "char U+{:04X}", c as u32);
        }
    }
}
