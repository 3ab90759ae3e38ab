use fe_lexer::text::{begins, chars_of, same_text, single_char, string_of, trim_bounds, whitespace};

#[test]
fn whitespace_is_what_unicode_calls_white_space() {
    let mut count = 0;
    for code in 0..=0x10ffff_u32 {
        if let Some(c) = char::from_u32(code) {
            assert_eq!(whitespace(c), c.is_whitespace());
            if whitespace(c) {
                count += 1;
            }
        }
    }
    assert_eq!(count, 25);
}

#[test]
fn characters_of_a_string() {
    assert_eq!(chars_of(""), Vec::<char>::new());
    assert_eq!(chars_of("a+é"), vec!['a', '+', 'é']);
    assert_eq!(chars_of("x = 5;"), vec!['x', ' ', '=', ' ', '5', ';']);
}

#[test]
fn string_of_characters() {
    assert_eq!(string_of(&[]), "");
    assert_eq!(string_of(&['a']), "a");
    assert_eq!(string_of(&['x', ' ', '=', ' ', '5', ';']), "x = 5;");
    assert_eq!(string_of(&['é', '→', '1']), "é→1");
    for word in ["", "a", "variable x: sint32 = 5;", "\u{a0}é\u{3000}"] {
        assert_eq!(string_of(&chars_of(word)), word);
    }
}

#[test]
fn same_text_compares_whole_strings() {
    assert!(same_text("", ""));
    assert!(same_text("class", "class"));
    assert!(same_text("é→", "é→"));
    assert!(!same_text("class", "clas"));
    assert!(!same_text("clas", "class"));
    assert!(!same_text("class", "clasz"));
    assert!(!same_text("", "a"));
    assert!(!same_text("a", ""));
    assert!(!same_text("Class", "class"));
}

#[test]
fn single_characters() {
    assert_eq!(single_char("+"), Some('+'));
    assert_eq!(single_char("é"), Some('é'));
    assert_eq!(single_char(" "), Some(' '));
    assert_eq!(single_char(""), None);
    assert_eq!(single_char("+="), None);
    assert_eq!(single_char("abc"), None);
    for word in ["", "a", "ab", "→", "→→", " a"] {
        assert_eq!(single_char(word), word.parse::<char>().ok());
    }
}

#[test]
fn beginnings() {
    let plus = ['+'];
    let plus_equal = ['+', '='];
    assert!(begins(&[], "+="));
    assert!(begins(&[], ""));
    assert!(begins(&plus, "+="));
    assert!(begins(&plus_equal, "+="));
    assert!(!begins(&plus_equal, "+"));
    assert!(!begins(&plus, "-="));
    assert!(!begins(&['=', '+'], "+="));
    assert!(!begins(&['+', '=', '='], "+="));
    assert!(!begins(&plus, ""));
}

#[test]
fn trimming() {
    for line in [
        "",
        " ",
        "\t \r\n",
        "x",
        " x",
        "x ",
        "  x = 5;  ",
        "\u{a0}x y\u{3000}",
        "\u{2028}#\u{85}",
        "a \t b",
        "\u{200b} x \u{200b}",
    ] {
        let chars: Vec<char> = line.chars().collect();
        let (from, to) = trim_bounds(&chars);
        assert!(from <= to && to <= chars.len());
        let trimmed: String = chars[from..to].iter().collect();
        assert_eq!(trimmed, line.trim());
    }
    assert_eq!(trim_bounds(&['a', ' ', 'b', ' ']), (0, 3));
    assert_eq!(trim_bounds(&[' ', ' ', 'b']), (2, 3));
}
