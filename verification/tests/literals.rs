use fe_lexer::literal::{digit, float_literal, integer_literal, parse_integer};

fn chars(word: &str) -> Vec<char> {
    word.chars().collect()
}

#[test]
fn digits() {
    for c in '0'..='9' {
        assert!(digit(c));
    }
    for c in ['/', ':', 'a', ' ', '٣', '²', '-', '.'] {
        assert!(!digit(c));
    }
}

#[test]
fn integer_literals() {
    for word in ["0", "7", "42", "007", "+1", "-1", "-0", "99999999999999999999999999999"] {
        assert!(integer_literal(&chars(word)));
    }
    for word in [
        "", "+", "-", "+-1", "1+", "1 ", " 1", "1.0", "1e3", "0x1f", "١", "1_000", "--1",
    ] {
        assert!(!integer_literal(&chars(word)));
    }
}

#[test]
fn float_literals() {
    for word in [
        "0.0", "3.14", ".5", "5.", "+.5", "-5.", "-0.25", "1.5e3", "1.5E3", "1.5e+3", "1.5e-3",
        "1.e5", ".5e0", "00.00", "123456789.987654321e123456789",
    ] {
        assert!(float_literal(&chars(word)));
    }
    for word in [
        "", ".", "+.", "-.", "5", "+5", "1e5", "inf", "nan", "infinity", "1.2.3", "1.5e", "1.5e+",
        "1.5e3.0", "1.5f", "e5", ".e5", "1. 5", " 1.5", "1.5 ", "1,5", "+-1.5", "1.5e--3", "٣.١",
    ] {
        assert!(!float_literal(&chars(word)));
    }
}

#[test]
fn float_literals_are_floats_with_a_point() {
    let words = [
        "0.0", "3.14", ".5", "5.", "+.5", "-5.", "1.5e3", "1.5E-3", "1.e5", ".", "+.", "1.2.3",
        "1.5e", "1.5e+", "e.5", ".e5", "5", "1e5", "inf", "nan", "-inf", "+infinity", "NaN", "",
        "1.5 ", "0x1.8p3", "1_0.5", ".5.", "..", "-.e1", "9.e-0", "+", "1.5e3e4", "٣.١",
    ];
    for word in words {
        let parses = word.parse::<f64>().is_ok();
        assert_eq!(float_literal(&chars(word)), parses && word.contains('.'));
    }
}

#[test]
fn integer_literals_are_what_parses_as_an_integer() {
    let words = [
        "0", "7", "-7", "+7", "007", "", "+", "-", "1.0", "1e3", " 1", "1 ", "--1", "+-1", "0x10",
        "1_000", "127", "-128", "٧",
    ];
    for word in words {
        assert_eq!(integer_literal(&chars(word)), word.parse::<i64>().is_ok());
        assert_eq!(parse_integer(&chars(word)), word.parse::<isize>().ok());
    }
}

#[test]
fn integer_values() {
    assert_eq!(parse_integer(&chars("0")), Some(0));
    assert_eq!(parse_integer(&chars("5")), Some(5));
    assert_eq!(parse_integer(&chars("1234567890")), Some(1234567890));
    assert_eq!(parse_integer(&chars("-1234567890")), Some(-1234567890));
    assert_eq!(parse_integer(&chars("+000123")), Some(123));
    assert_eq!(parse_integer(&chars("-0")), Some(0));
}

#[test]
fn integer_values_at_the_edge_of_the_range() {
    let max = isize::MAX.to_string();
    let min = isize::MIN.to_string();
    assert_eq!(parse_integer(&chars(&max)), Some(isize::MAX));
    assert_eq!(parse_integer(&chars(&format!("+{max}"))), Some(isize::MAX));
    assert_eq!(parse_integer(&chars(&min)), Some(isize::MIN));
    // One past either end: the magnitude of the least value, taken as positive,
    // and the next digit string below it.
    let past_max = min.trim_start_matches('-').to_string();
    assert_eq!(parse_integer(&chars(&past_max)), None);
    let mut past_min = chars(&min);
    let last = past_min.len() - 1;
    past_min[last] = char::from_digit(past_min[last].to_digit(10).unwrap() + 1, 10).unwrap();
    assert_eq!(parse_integer(&past_min), None);
    assert_eq!(parse_integer(&chars(&format!("{max}0"))), None);
    assert_eq!(parse_integer(&chars(&format!("{min}0"))), None);
    assert_eq!(parse_integer(&chars(&format!("000{max}"))), Some(isize::MAX));
}

#[test]
fn words_that_are_no_integers_have_no_value() {
    for word in ["", "+", "-", "five", "5.0", "5 ", "0x5"] {
        assert_eq!(parse_integer(&chars(word)), None);
    }
}
