use vinsert_backend::text::concat2;
use vinsert_backend::text::concat3;
use vinsert_backend::text::concat4;
use vinsert_backend::text::contains_str;
use vinsert_backend::text::starts_with_str;
use vinsert_backend::text::str_eq;
use vinsert_backend::text::trim_str;

#[test]
fn str_eq_basic() {
    assert!(str_eq("", ""));
    assert!(str_eq("abc", "abc"));
    assert!(!str_eq("abc", "abd"));
    assert!(!str_eq("abc", "ab"));
    assert!(!str_eq("", "a"));
}

#[test]
fn starts_with_basic() {
    assert!(starts_with_str("hello world", "hello"));
    assert!(starts_with_str("hello", "hello"));
    assert!(starts_with_str("hello", ""));
    assert!(!starts_with_str("hello", "world"));
    assert!(!starts_with_str("he", "hello"));
}

#[test]
fn contains_basic() {
    assert!(contains_str("hello world", "o w"));
    assert!(contains_str("hello world", "hello"));
    assert!(contains_str("hello world", "world"));
    assert!(contains_str("anything", ""));
    assert!(contains_str("", ""));
    assert!(!contains_str("", "a"));
    assert!(!contains_str("hello", "worlds"));
    assert!(!contains_str("hello", "lo!"));
}

#[test]
fn contains_overlapping() {
    assert!(contains_str("aaa", "aa"));
    assert!(contains_str("ababab", "bab"));
    assert!(!contains_str("ababab", "bb"));
}

#[test]
fn trim_basic() {
    assert_eq!(trim_str("  hello  "), "hello");
    assert_eq!(trim_str("hello\n"), "hello");
    assert_eq!(trim_str("\t\r\n hello world \n"), "hello world");
    assert_eq!(trim_str("hello"), "hello");
    assert_eq!(trim_str(""), "");
    assert_eq!(trim_str("   "), "");
    assert_eq!(trim_str(" a b "), "a b");
}

#[test]
fn trim_unicode_whitespace() {
    assert_eq!(trim_str("\u{a0}hello\u{3000}"), "hello");
    assert_eq!(trim_str("\u{2028}\u{2009}x\u{85}"), "x");
    assert_eq!(trim_str("a\u{a0}b"), "a\u{a0}b");
}

#[test]
fn concat_basic() {
    assert_eq!(concat2("ab", "cd"), "abcd");
    assert_eq!(concat3("a", "b", "c"), "abc");
    assert_eq!(concat4("a", "", "c", "d"), "acd");
}
