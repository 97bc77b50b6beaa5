use heuristics::text::{contains, ends_with_slash};

#[test]
fn needles_are_found_wherever_they_stand() {
    assert!(contains("abcabd", "abd"));
    assert!(contains("abcabd", "abc"));
    assert!(contains("abcabd", "abcabd"));
    assert!(contains("aaab", "aab"));
    assert!(contains("h\u{e9}llo", "\u{e9}l"));
    assert!(!contains("abcabd", "abe"));
    assert!(!contains("ab", "abc"));
    assert!(!contains("", "a"));
}

#[test]
fn nothing_is_found_everywhere() {
    assert!(contains("abc", ""));
    assert!(contains("", ""));
}

#[test]
fn slashes_are_told_at_the_end_only() {
    assert!(ends_with_slash("/"));
    assert!(ends_with_slash("\u{e9}/"));
    assert!(!ends_with_slash("/a"));
    assert!(!ends_with_slash(""));
}
