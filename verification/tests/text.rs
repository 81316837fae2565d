use sentinel::text::{chars_of, find_chars, trim_bounds};

fn find(hay: &str, needle: &str) -> Option<usize> {
    find_chars(&chars_of(hay), &chars_of(needle))
}

fn trim(text: &str) -> String {
    let chars = chars_of(text);
    let (start, end) = trim_bounds(&chars);
    chars[start..end].iter().collect()
}

#[test]
fn chars_of_gives_the_characters() {
    assert_eq!(chars_of(""), Vec::<char>::new());
    assert_eq!(chars_of("a\u{e9}\u{1f600}b"), vec!['a', '\u{e9}', '\u{1f600}', 'b']);
}

#[test]
fn find_gives_the_first_occurrence() {
    assert_eq!(find("abcabc", "bc"), Some(1));
    assert_eq!(find("abcabc", "abc"), Some(0));
    assert_eq!(find("abcabc", "cab"), Some(2));
    assert_eq!(find("aaab", "aab"), Some(1));
    assert_eq!(find("abc", "c"), Some(2));
}

#[test]
fn find_gives_nothing_where_the_needle_is_missing() {
    assert_eq!(find("abcabc", "cba"), None);
    assert_eq!(find("abc", "abcd"), None);
    assert_eq!(find("", "a"), None);
    assert_eq!(find("STATU", "STATUS"), None);
}

#[test]
fn find_of_nothing_is_at_the_front() {
    assert_eq!(find("abc", ""), Some(0));
    assert_eq!(find("", ""), Some(0));
}

#[test]
fn find_counts_characters() {
    assert_eq!(find("\u{e9}\u{e9}x", "x"), Some(2));
    assert_eq!("\u{e9}\u{e9}x".find('x'), Some(4));
}

#[test]
fn trim_bounds_enclose_what_trim_keeps() {
    assert_eq!(trim_bounds(&chars_of("  ab c \n")), (2, 6));
    assert_eq!(trim_bounds(&chars_of("abc")), (0, 3));
    assert_eq!(trim_bounds(&chars_of("")), (0, 0));
    assert_eq!(trim_bounds(&chars_of(" \t\r\n")), (4, 4));
    assert_eq!(trim_bounds(&chars_of("\u{a0} x \u{3000}")), (2, 3));
}

#[test]
fn trimming_agrees_with_std() {
    for text in ["  ab c \n", "abc", "", " \t\r\n", "\u{a0} x \u{3000}", "x\u{2028}", "\u{b}\u{c}y\u{85}", "_ _"] {
        assert_eq!(trim(text), text.trim());
    }
}
