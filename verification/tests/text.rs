use ugh::text::{
    char_is_whitespace, chars_of, contains_str, decimal_digits, join_vecs, replace_char_vec, split_lines,
    split_words, string_of, strip_char_vec, trim_end_vec, trim_start_vec, trim_vec,
};

fn v(s: &str) -> Vec<char> {
    s.chars().collect()
}

#[test]
fn chars_and_strings_round_trip() {
    assert_eq!(chars_of("héllo"), vec!['h', 'é', 'l', 'l', 'o']);
    assert_eq!(string_of(&vec!['a', 'ß', 'c']), "aßc");
    assert_eq!(string_of(&chars_of("")), "");
}

#[test]
fn trims_unicode_whitespace() {
    assert_eq!(trim_vec(&v("  a b\t\n")), v("a b"));
    assert_eq!(trim_vec(&v("\u{a0}x\u{3000}")), v("x"));
    assert_eq!(trim_vec(&v(" \t ")), v(""));
    assert_eq!(trim_vec(&v("x")), v("x"));
    assert_eq!(trim_start_vec(&v("  a ")), v("a "));
    assert_eq!(trim_end_vec(&v("  a ")), v("  a"));
}

#[test]
fn strips_a_character_from_both_ends() {
    assert_eq!(strip_char_vec(&v("--a-b--"), '-'), v("a-b"));
    assert_eq!(strip_char_vec(&v("----"), '-'), v(""));
    assert_eq!(strip_char_vec(&v("ab"), '-'), v("ab"));
}

#[test]
fn finds_substrings() {
    assert!(contains_str(&v("prefix"), "fix"));
    assert!(contains_str(&v("fix"), "fix"));
    assert!(contains_str(&v("abc"), ""));
    assert!(contains_str(&v(""), ""));
    assert!(!contains_str(&v("fi"), "fix"));
    assert!(!contains_str(&v("f-i-x"), "fix"));
}

#[test]
fn writes_decimal_numbers() {
    assert_eq!(decimal_digits(0), v("0"));
    assert_eq!(decimal_digits(9), v("9"));
    assert_eq!(decimal_digits(10), v("10"));
    assert_eq!(decimal_digits(12345), v("12345"));
    assert_eq!(decimal_digits(usize::MAX), v(&usize::MAX.to_string()));
}

#[test]
fn splits_words_at_whitespace() {
    assert_eq!(split_words(&v("  a  bc\td\n")), vec![v("a"), v("bc"), v("d")]);
    assert_eq!(split_words(&v("")), Vec::<Vec<char>>::new());
    assert_eq!(split_words(&v("   ")), Vec::<Vec<char>>::new());
    assert_eq!(split_words(&v("one")), vec![v("one")]);
}

#[test]
fn splits_lines_as_std_does() {
    for text in ["", "a", "a\n", "a\nb", "a\r\nb\r\n", "\n\n", "a\r", "a\r\r\n", "\r\n"] {
        let expected: Vec<Vec<char>> = text.lines().map(|line| line.chars().collect()).collect();
        assert_eq!(split_lines(&v(text)), expected);
    }
}

#[test]
fn joins_and_replaces() {
    assert_eq!(join_vecs(&vec![v("a"), v("b"), v("c")], ", "), v("a, b, c"));
    assert_eq!(join_vecs(&vec![v("a")], "-"), v("a"));
    assert_eq!(join_vecs(&Vec::new(), "-"), v(""));
    assert_eq!(replace_char_vec(&v("a-b-c"), '-', ' '), v("a b c"));
}

#[test]
fn whitespace_agrees_with_std_on_every_character() {
    for code in 0..=0x10ffffu32 {
        if let Some(c) = char::from_u32(code) {
            assert_eq!(char_is_whitespace(c), c.is_whitespace(), "U+{code:04X}");
        }
    }
}

#[test]
fn ascii_whitespace_is_space_and_tab_to_carriage_return() {
    let expected = [' ', '\t', '\n', '\u{b}', '\u{c}', '\r'];
    for code in 0..=0x7fu8 {
        let c = code as char;
        assert_eq!(char_is_whitespace(c), expected.contains(&c));
    }
}
