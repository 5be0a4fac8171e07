use tsu::strutil::{contains_sub, ends_with, lowercase, str_equal, with_trailing_ending};

#[test]
fn equal_strings_compare_equal() {
    assert!(str_equal("", ""));
    assert!(str_equal("abc", "abc"));
    assert!(!str_equal("abc", "abd"));
    assert!(!str_equal("abc", "abcd"));
    assert!(str_equal("héllo", "héllo"));
}

#[test]
fn substring_search_finds_needles() {
    assert!(contains_sub("hello world", "world"));
    assert!(contains_sub("hello world", ""));
    assert!(contains_sub("hello world", "hello world"));
    assert!(contains_sub("aaab", "aab"));
    assert!(!contains_sub("hello world", "worlds"));
    assert!(!contains_sub("abc", "abcd"));
}

#[test]
fn suffix_test_matches_std() {
    assert!(ends_with("config.toml", ".toml"));
    assert!(ends_with("x", "x"));
    assert!(ends_with("x", ""));
    assert!(!ends_with("config.toml", ".json"));
    assert!(!ends_with("a", "ba"));
}

#[test]
fn trailing_ending_added_only_when_missing() {
    assert_eq!(with_trailing_ending(String::from("abc"), "\n"), "abc\n");
    assert_eq!(with_trailing_ending(String::from("abc\n"), "\n"), "abc\n");
    assert_eq!(with_trailing_ending(String::new(), "\n"), "\n");
    assert_eq!(with_trailing_ending(String::from("a\r\n"), "\r\n"), "a\r\n");
}

#[test]
fn lowercase_folds_ascii_and_keeps_lower() {
    assert_eq!(lowercase("AbC"), "abc");
    assert_eq!(lowercase("already lower"), "already lower");
    assert_eq!(lowercase(""), "");
    assert_eq!(lowercase("MIXED Case 123"), "mixed case 123");
}
