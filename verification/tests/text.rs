use todo_list::text::{chars_of, is_whitespace, trim};

#[test]
fn whitespace_is_what_the_standard_library_calls_whitespace() {
    let mut code: u32 = 0;
    while code <= 0x10FFFF {
        if let Some(c) = char::from_u32(code) {
            assert_eq!(is_whitespace(c), c.is_whitespace(), "U+{:04X}", code);
        }
        code += 1;
    }
}

#[test]
fn whitespace_holds_the_ascii_blanks_and_no_letter() {
    assert!(is_whitespace(' '));
    assert!(is_whitespace('\t'));
    assert!(is_whitespace('\n'));
    assert!(is_whitespace('\r'));
    assert!(is_whitespace('\u{3000}'));
    assert!(!is_whitespace('a'));
    assert!(!is_whitespace('0'));
    assert!(!is_whitespace('\u{200B}'));
}

#[test]
fn chars_of_gives_each_character_in_order() {
    assert_eq!(chars_of(""), Vec::<char>::new());
    assert_eq!(chars_of("a b"), vec!['a', ' ', 'b']);
    assert_eq!(chars_of("\u{4E70}\u{5976}"), vec!['\u{4E70}', '\u{5976}']);
}

#[test]
fn trim_drops_the_white_space_around_a_text() {
    assert_eq!(trim("buy milk"), "buy milk");
    assert_eq!(trim("  buy milk"), "buy milk");
    assert_eq!(trim("buy milk \n"), "buy milk");
    assert_eq!(trim("\t buy  milk \r\n"), "buy  milk");
    assert_eq!(trim("x"), "x");
    assert_eq!(trim(" x "), "x");
}

#[test]
fn trim_of_a_blank_text_is_empty() {
    assert_eq!(trim(""), "");
    assert_eq!(trim(" "), "");
    assert_eq!(trim("\n"), "");
    assert_eq!(trim(" \t\r\n\u{0B}\u{0C}"), "");
    assert_eq!(trim("\u{85}\u{A0}\u{1680}\u{2000}\u{200A}\u{2028}\u{2029}\u{202F}\u{205F}\u{3000}"), "");
}

#[test]
fn trim_agrees_with_the_standard_library() {
    let samples = vec![
        "",
        " ",
        "a",
        " a",
        "a ",
        " a b ",
        "\u{3000}\u{4E70}\u{725B}\u{5976}\u{3000}",
        "\u{A0}1\u{A0}",
        "\u{200B}x\u{200B}",
        "\u{FEFF}x",
        "line\n",
        "line\r\n",
        "\n\nline one\nline two\n\n",
        "   3   ",
    ];
    for s in samples {
        assert_eq!(trim(s), s.trim(), "{:?}", s);
    }
}

#[test]
fn trim_twice_is_trim_once() {
    let samples = vec!["", "  ", " a b ", "\tx\n", "abc"];
    for s in samples {
        assert_eq!(trim(trim(s)), trim(s));
    }
}
