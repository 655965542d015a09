use yandere_companion::text::{
    compact_whitespace_text, concat_str, contains_text, decimal_text, ends_with_text,
    is_blank_text, replace_text, same_text, starts_with_text, take_chars_text, to_ascii_lower,
    trim_text, utf8_len_at_least,
};

#[test]
fn trim_removes_unicode_white_space_at_both_ends() {
    assert_eq!(trim_text("  \t hello world \n"), "hello world");
    assert_eq!(trim_text("\u{3000}美月\u{3000}"), "美月");
    assert_eq!(trim_text("   "), "");
    assert_eq!(trim_text(""), "");
    assert_eq!(trim_text("a b"), "a b");
}

#[test]
fn blank_means_only_white_space() {
    assert!(is_blank_text(""));
    assert!(is_blank_text(" \t\r\n"));
    assert!(!is_blank_text(" x "));
}

#[test]
fn ascii_lowercase_leaves_other_letters() {
    assert_eq!(to_ascii_lower("HTTP 503 Timed Out"), "http 503 timed out");
    assert_eq!(to_ascii_lower("ÄÖ Ünï"), "ÄÖ Ünï");
}

#[test]
fn contains_and_affixes() {
    assert!(contains_text("error sending request for url", "sending"));
    assert!(!contains_text("abc", "abd"));
    assert!(contains_text("abc", ""));
    assert!(starts_with_text("```json {}", "```json"));
    assert!(!starts_with_text("``", "```"));
    assert!(ends_with_text("{} ```", "```"));
    assert!(!ends_with_text("``", "```"));
}

#[test]
fn replace_matches_std_replace() {
    assert_eq!(replace_text("a {{x}} b {{x}}", "{{x}}", "1"), "a 1 b 1");
    assert_eq!(replace_text("aaa", "aa", "b"), "ba");
    assert_eq!(replace_text("abc", "", "x"), "xaxbxcx");
    assert_eq!(replace_text("", "", "x"), "x");
    assert_eq!(replace_text("line1\nline2", "\n", "\\n"), "line1\\nline2");
    assert_eq!(replace_text("line1\nline2", "\n", "\\n"), "line1\nline2".replace('\n', "\\n"));
}

#[test]
fn take_chars_counts_characters_not_bytes() {
    assert_eq!(take_chars_text("美月さん", 2), "美月");
    assert_eq!(take_chars_text("abc", 10), "abc");
    assert_eq!(take_chars_text("abc", 0), "");
}

#[test]
fn compact_whitespace_joins_words_with_single_spaces() {
    assert_eq!(compact_whitespace_text("  a \n\t b   c  "), "a b c");
    assert_eq!(compact_whitespace_text("   "), "");
    let s = "x  y\n z";
    assert_eq!(compact_whitespace_text(s), s.split_whitespace().collect::<Vec<_>>().join(" "));
}

#[test]
fn decimal_and_utf8_length() {
    assert_eq!(decimal_text(0), "0");
    assert_eq!(decimal_text(38465), "38465");
    assert_eq!(decimal_text(u64::MAX), u64::MAX.to_string());
    assert!(utf8_len_at_least("美月", 6));
    assert!(!utf8_len_at_least("美月", 7));
    assert!(utf8_len_at_least("", 0));
}

#[test]
fn concat_and_equality() {
    assert_eq!(concat_str("yc-", "abc"), "yc-abc");
    assert!(same_text("美月", "美月"));
    assert!(!same_text("美月", "美"));
}
