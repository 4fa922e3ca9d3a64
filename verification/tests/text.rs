use valorant_menubar::text::{chars_of, contains_chars, same_text};

fn contains(hay: &str, needle: &str) -> bool {
    contains_chars(&chars_of(hay), &chars_of(needle))
}

#[test]
fn chars_of_lists_characters_not_bytes() {
    assert_eq!(chars_of("KRÜ"), vec!['K', 'R', 'Ü']);
    assert_eq!(chars_of(""), Vec::<char>::new());
}

#[test]
fn contains_finds_parts_anywhere() {
    assert!(contains("sentinels vs 100 thieves", "sentinels"));
    assert!(contains("sentinels vs 100 thieves", "100 thieves"));
    assert!(contains("sentinels vs 100 thieves", " vs "));
    assert!(contains("abc", "abc"));
    assert!(contains("aab", "ab"));
}

#[test]
fn contains_rejects_what_is_not_there() {
    assert!(!contains("sentinels", "sentinels!"));
    assert!(!contains("abc", "ac"));
    assert!(!contains("", "a"));
    assert!(!contains("Sentinels", "sentinels"));
}

#[test]
fn empty_text_is_part_of_every_text() {
    assert!(contains("abc", ""));
    assert!(contains("", ""));
}

#[test]
fn contains_chars_agrees_with_contains() {
    let hay = chars_of("paper rex vs drx");
    assert!(contains_chars(&hay, &chars_of("drx")));
    assert!(contains_chars(&hay, &chars_of("rex vs")));
    assert!(!contains_chars(&hay, &chars_of("drxx")));
    assert!(!contains_chars(&chars_of("ab"), &chars_of("abc")));
}

#[test]
fn same_text_compares_all_characters() {
    assert!(same_text("LIVE", "LIVE"));
    assert!(!same_text("LIVE", "LIVe"));
    assert!(!same_text("LIVE", "LIVE "));
    assert!(same_text("", ""));
    assert!(!same_text("krü", "kru"));
}
