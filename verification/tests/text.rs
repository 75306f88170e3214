use twitter_auth::text::{chars_of, has_substring, is_space_char, same_text, to_lowercase};

fn chars(s: &str) -> Vec<char> {
    s.chars().collect()
}

#[test]
fn chars_of_gives_each_character() {
    assert_eq!(chars_of("h\u{e9}llo"), vec!['h', '\u{e9}', 'l', 'l', 'o']);
    assert!(chars_of("").is_empty());
}

#[test]
fn to_lowercase_folds_ascii_letters_only() {
    assert_eq!(to_lowercase(&chars("Max-AGE=0; \u{c9}")), chars("max-age=0; \u{c9}"));
}

#[test]
fn has_substring_finds_needles_anywhere() {
    assert!(has_substring(&chars("a=1; max-age=0"), &chars("max-age=0")));
    assert!(has_substring(&chars("max-age=0"), &chars("max-age=0")));
    assert!(has_substring(&chars("abc"), &chars("")));
    assert!(has_substring(&chars(""), &chars("")));
    assert!(!has_substring(&chars("max-age=1"), &chars("max-age=0")));
    assert!(!has_substring(&chars("ab"), &chars("abc")));
}

#[test]
fn same_text_compares_contents() {
    assert!(same_text("ct0", "ct0"));
    assert!(!same_text("ct0", "ct1"));
    assert!(!same_text("ct0", "ct"));
}

#[test]
fn is_space_char_follows_unicode_white_space() {
    for c in ['\u{0}', ' ', '\t', '\n', '\u{b}', '\u{c}', '\r', 'a', '\u{85}', '\u{a0}', '\u{1680}',
        '\u{2000}', '\u{200a}', '\u{200b}', '\u{2028}', '\u{2029}', '\u{202f}', '\u{205f}',
        '\u{3000}', '\u{feff}']
    {
        assert_eq!(is_space_char(c), c.is_whitespace(), "{:?}", c);
    }
}
