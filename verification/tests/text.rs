use fast_task::text::{join, index_of, is_blank, shorten, trim_end_matches};

#[test]
fn blank_texts_are_blank() {
    assert!(is_blank(""));
    assert!(is_blank(" "));
    assert!(is_blank(" \t\r\n"));
    assert!(is_blank("\u{3000}\u{a0}"));
}

#[test]
fn texts_with_a_letter_are_not_blank() {
    assert!(!is_blank("a"));
    assert!(!is_blank("  a  "));
    assert!(!is_blank("\n.\n"));
    assert!(!is_blank("Disk full"));
}

#[test]
fn is_blank_agrees_with_trim() {
    for s in ["", " ", "x", " x", "x ", "\t\t", "\u{2003}", "\u{200b}", "_"] {
        assert_eq!(is_blank(s), s.trim().is_empty(), "{:?}", s);
    }
}

#[test]
fn trailing_slashes_are_removed() {
    assert_eq!(trim_end_matches("https://a.b/", '/'), "https://a.b");
    assert_eq!(trim_end_matches("https://a.b///", '/'), "https://a.b");
    assert_eq!(trim_end_matches("https://a.b", '/'), "https://a.b");
    assert_eq!(trim_end_matches("https://a.b/c", '/'), "https://a.b/c");
    assert_eq!(trim_end_matches("///", '/'), "");
    assert_eq!(trim_end_matches("", '/'), "");
}

#[test]
fn trailing_trim_agrees_with_std() {
    for s in ["", "/", "a/", "/a", "a//b//", "é/", "/é//"] {
        assert_eq!(trim_end_matches(s, '/'), s.trim_end_matches('/'));
    }
}

#[test]
fn short_texts_are_not_shortened() {
    assert_eq!(shorten("", 60, 57), "");
    assert_eq!(shorten("abc", 60, 57), "abc");
    let sixty = "x".repeat(60);
    assert_eq!(shorten(&sixty, 60, 57), sixty);
}

#[test]
fn long_texts_keep_their_start() {
    let sixty_one = "y".repeat(61);
    assert_eq!(shorten(&sixty_one, 60, 57), format!("{}...", "y".repeat(57)));
    assert_eq!(shorten("abcdef", 5, 2), "ab...");
    assert_eq!(shorten("abcdef", 5, 5), "abcde...");
    assert_eq!(shorten("abcdef", 0, 0), "...");
}

#[test]
fn shortening_counts_characters() {
    let text = "é".repeat(61);
    assert_eq!(text.len(), 122);
    assert_eq!(shorten(&text, 60, 57), format!("{}...", "é".repeat(57)));
    let fits = "ü".repeat(60);
    assert_eq!(shorten(&fits, 60, 57), fits);
}

#[test]
fn index_of_finds_the_first() {
    let items = vec!["a".to_string(), "b".to_string(), "a".to_string(), "c".to_string()];
    assert_eq!(index_of(&items, "a"), Some(0));
    assert_eq!(index_of(&items, "b"), Some(1));
    assert_eq!(index_of(&items, "c"), Some(3));
    assert_eq!(index_of(&items, "d"), None);
    assert_eq!(index_of(&items, ""), None);
    assert_eq!(index_of(&Vec::new(), "a"), None);
}

#[test]
fn concat_joins() {
    assert_eq!(join("ab", "cd"), "abcd");
    assert_eq!(join("", ""), "");
    assert_eq!(join("", "x"), "x");
}
