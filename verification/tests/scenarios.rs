use fe_lexer::error::LexError;
use fe_lexer::lexer::Lexer;
use fe_lexer::token::Token;

fn tokens_of(line: &str) -> Vec<Token> {
    Lexer::new().tokenize_line(line).unwrap()
}

fn identifier(name: &str) -> Token {
    Token::Identifier(name.to_string())
}

fn integer(text: &str) -> Token {
    Token::IntegerLiteral(text.to_string())
}

#[test]
fn variable_declaration_line() {
    let tokens = tokens_of("variable x: sint32 = 5;");
    assert_eq!(
        tokens,
        vec![
            Token::VariableDeclaration("variable"),
            identifier("x"),
            Token::Colon(':'),
            Token::SignedThirtyTwoBitInteger("sint32"),
            Token::EqualSign('='),
            integer("5"),
            Token::Punctuation(';'),
        ]
    );
    assert_eq!(tokens[5].integer_value(), Some(5));
}

#[test]
fn comment_only_line() {
    assert_eq!(tokens_of("# comment only"), vec![]);
}

#[test]
fn missing_terminator_is_malformed() {
    assert_eq!(
        Lexer::new().tokenize_line("x = 5"),
        Err(LexError::MalformedStatement("x = 5".to_string()))
    );
}

#[test]
fn increment_and_assign_is_one_token() {
    let tokens = tokens_of("a += 1;");
    assert_eq!(
        tokens,
        vec![
            identifier("a"),
            Token::IncrementAndAssign("+="),
            integer("1"),
            Token::Punctuation(';'),
        ]
    );
    assert_eq!(tokens[2].integer_value(), Some(1));
}

#[test]
fn return_type_arrow_is_one_token() {
    let tokens = tokens_of("return -> value;");
    assert_eq!(
        tokens,
        vec![
            identifier("return"),
            Token::ReturnTypeArrow("->"),
            identifier("value"),
            Token::Punctuation(';'),
        ]
    );
    let arrows = tokens
        .iter()
        .filter(|token| matches!(token, Token::ReturnTypeArrow(_)))
        .count();
    assert_eq!(arrows, 1);
    assert!(!tokens.contains(&Token::MinusSign('-')));
    assert!(!tokens.contains(&Token::GreaterThan('>')));
}

#[test]
fn every_compound_operator_is_one_token() {
    let cases = [
        ("+=", Token::IncrementAndAssign("+=")),
        ("-=", Token::DecrementAndAssign("-=")),
        ("*=", Token::MultiplyAndAssign("*=")),
        ("/=", Token::DivideAndAssign("/=")),
        ("->", Token::ReturnTypeArrow("->")),
        ("==", Token::EqualityCheck("==")),
    ];
    for (operator, token) in cases {
        let line = format!("a {operator} b;");
        assert_eq!(
            tokens_of(&line),
            vec![
                identifier("a"),
                token,
                identifier("b"),
                Token::Punctuation(';'),
            ]
        );
    }
}

#[test]
fn single_operators_between_spaces() {
    let cases = [
        ('+', Token::PlusSign('+')),
        ('-', Token::MinusSign('-')),
        ('*', Token::MultiplicationSign('*')),
        ('/', Token::DivisionSign('/')),
        ('=', Token::EqualSign('=')),
        (':', Token::Colon(':')),
        ('<', Token::LessThan('<')),
        ('>', Token::GreaterThan('>')),
    ];
    for (operator, token) in cases {
        let line = format!("a {operator} b;");
        assert_eq!(
            tokens_of(&line),
            vec![
                identifier("a"),
                token,
                identifier("b"),
                Token::Punctuation(';'),
            ]
        );
    }
}

#[test]
fn assignment_without_spaces() {
    assert_eq!(
        tokens_of("x=5;"),
        vec![
            identifier("x"),
            Token::EqualSign('='),
            integer("5"),
            Token::Punctuation(';'),
        ]
    );
}

#[test]
fn operator_run_glued_to_a_name_joins_the_name() {
    // The first of two operator characters in a row is kept in the pending
    // lexeme whatever that lexeme holds.
    assert_eq!(
        tokens_of("a==b;"),
        vec![
            identifier("a="),
            Token::EqualSign('='),
            identifier("b"),
            Token::Punctuation(';'),
        ]
    );
}

#[test]
fn signed_number_is_one_literal() {
    let tokens = tokens_of("x = -5;");
    assert_eq!(
        tokens,
        vec![
            identifier("x"),
            Token::EqualSign('='),
            integer("-5"),
            Token::Punctuation(';'),
        ]
    );
    assert_eq!(tokens[2].integer_value(), Some(-5));
}

#[test]
fn floating_point_declaration() {
    assert_eq!(
        tokens_of("constant pi: usize = 3.14;"),
        vec![
            Token::ConstantDeclaration("constant"),
            identifier("pi"),
            Token::Colon(':'),
            Token::UnsignedSize("usize"),
            Token::EqualSign('='),
            Token::FloatLiteral("3.14".to_string()),
            Token::Punctuation(';'),
        ]
    );
}

#[test]
fn call_with_grouping_symbols() {
    assert_eq!(
        tokens_of("f(x);"),
        vec![
            identifier("f"),
            Token::LeftParenthesis('('),
            identifier("x"),
            Token::RightParenthesis(')'),
            Token::Punctuation(';'),
        ]
    );
}

#[test]
fn class_header_and_footer() {
    assert_eq!(
        tokens_of("class Point {"),
        vec![
            Token::ClassDeclaration("class"),
            identifier("Point"),
            Token::LeftBracket('{'),
        ]
    );
    assert_eq!(tokens_of("}"), vec![Token::RightBracket('}')]);
}

#[test]
fn function_signature() {
    assert_eq!(
        tokens_of("function area(w: uint32) -> uint64 {"),
        vec![
            Token::FunctionDeclaration("function"),
            identifier("area"),
            Token::LeftParenthesis('('),
            identifier("w"),
            Token::Colon(':'),
            Token::UnsignedThirtyTwoBitInteger("uint32"),
            Token::RightParenthesis(')'),
            Token::ReturnTypeArrow("->"),
            Token::UnsignedSixtyFourBitInteger("uint64"),
            Token::LeftBracket('{'),
        ]
    );
}

#[test]
fn comment_in_the_middle_of_a_line() {
    assert_eq!(
        tokens_of("x = 5; # the rest is ignored = + ("),
        vec![
            identifier("x"),
            Token::EqualSign('='),
            integer("5"),
            Token::Punctuation(';'),
        ]
    );
}

#[test]
fn comment_marker_glued_to_a_word_is_no_comment() {
    assert_eq!(
        tokens_of("x = 5; #note ;"),
        vec![
            identifier("x"),
            Token::EqualSign('='),
            integer("5"),
            Token::Punctuation(';'),
            identifier("#note"),
            Token::Punctuation(';'),
        ]
    );
    assert_eq!(
        Lexer::new().tokenize_line("x = 5; #note"),
        Err(LexError::MalformedStatement("x = 5; #note".to_string()))
    );
}

#[test]
fn comment_marker_at_the_very_end_is_pending() {
    assert_eq!(
        Lexer::new().tokenize_line("x = 5; #"),
        Err(LexError::MalformedStatement("x = 5; #".to_string()))
    );
}

#[test]
fn line_ending_in_a_kept_operator_is_malformed() {
    assert_eq!(
        Lexer::new().tokenize_line("a ="),
        Err(LexError::MalformedStatement("a =".to_string()))
    );
}

#[test]
fn line_ending_in_a_lone_operator_is_closed() {
    assert_eq!(tokens_of("a <"), vec![identifier("a"), Token::LessThan('<')]);
}

#[test]
fn surrounding_whitespace_is_dropped() {
    assert_eq!(
        tokens_of("  \t x = 5;  \r\n"),
        vec![
            identifier("x"),
            Token::EqualSign('='),
            integer("5"),
            Token::Punctuation(';'),
        ]
    );
    assert_eq!(
        Lexer::new().tokenize_line("   x = 5  "),
        Err(LexError::MalformedStatement("x = 5".to_string()))
    );
}

#[test]
fn unusual_whitespace_separates_lexemes() {
    assert_eq!(
        tokens_of("a\u{a0}=\u{3000}1\u{2003};"),
        vec![
            identifier("a"),
            Token::EqualSign('='),
            integer("1"),
            Token::Punctuation(';'),
        ]
    );
}
