use sql_aware::part::{char_text, quote};
use sql_aware::text::{
    char_is_whitespace, chars_of, contains_char, first_char, last_char, normalize_quotes, trim,
};

#[test]
fn whitespace_is_what_std_calls_whitespace() {
    let mut code: u32 = 0;
    while code <= 0x10FFFF {
        if let Some(c) = char::from_u32(code) {
            assert_eq!(char_is_whitespace(c), c.is_whitespace(), "U+{:04X}", code);
        }
        code += 1;
    }
}

#[test]
fn whitespace_examples() {
    assert!(char_is_whitespace(' '));
    assert!(char_is_whitespace('\t'));
    assert!(char_is_whitespace('\n'));
    assert!(char_is_whitespace('\u{3000}'));
    assert!(!char_is_whitespace('a'));
    assert!(!char_is_whitespace('\u{200B}'));
    assert!(!char_is_whitespace('\u{8}'));
    assert!(!char_is_whitespace('\u{E}'));
}

#[test]
fn trim_is_what_std_trims() {
    let samples = [
        "",
        " ",
        "   ",
        "a",
        " a",
        "a ",
        "  a b  ",
        "\n\tSELECT 1\r\n",
        "\u{3000}x\u{2028}",
        "\u{200B} x \u{200B}",
        " \u{A0} é ü \u{85}",
    ];
    for sample in samples {
        assert_eq!(trim(sample), sample.trim(), "{:?}", sample);
    }
}

#[test]
fn trim_examples() {
    assert_eq!(trim("  a b  "), "a b");
    assert_eq!(trim(" \t\n"), "");
    assert_eq!(trim("a"), "a");
    assert_eq!(trim(""), "");
}

#[test]
fn normalize_quotes_replaces_every_double_quote() {
    assert_eq!(normalize_quotes("name = \"blue\""), "name = 'blue'");
    assert_eq!(normalize_quotes("\"\"\""), "'''");
    assert_eq!(normalize_quotes("it's"), "it's");
    assert_eq!(normalize_quotes(""), "");
    assert_eq!(normalize_quotes("é\"ü"), "é'ü");
}

#[test]
fn first_and_last_char() {
    assert_eq!(first_char(""), None);
    assert_eq!(last_char(""), None);
    assert_eq!(first_char("a"), Some('a'));
    assert_eq!(last_char("a"), Some('a'));
    assert_eq!(first_char("(x)"), Some('('));
    assert_eq!(last_char("(x)"), Some(')'));
    assert_eq!(first_char("éa"), Some('é'));
    assert_eq!(last_char("aü"), Some('ü'));
}

#[test]
fn chars_of_keeps_the_order() {
    assert_eq!(chars_of(""), Vec::<char>::new());
    assert_eq!(chars_of("a,é"), vec!['a', ',', 'é']);
}

#[test]
fn contains_char_finds_members_only() {
    let set = vec!['.', ',', ';'];
    assert!(contains_char(&set, '.'));
    assert!(contains_char(&set, ';'));
    assert!(!contains_char(&set, ')'));
    assert!(!contains_char(&Vec::new(), '.'));
}

#[test]
fn quote_puts_the_mark_on_both_sides() {
    assert_eq!(quote('"', "blue"), "\"blue\"");
    assert_eq!(quote('\'', ""), "''");
    assert_eq!(quote('\'', "a'b"), "'a'b'");
}

#[test]
fn char_text_is_the_one_character() {
    assert_eq!(char_text('$'), "$");
    assert_eq!(char_text('é'), "é");
}
