use fe_lexer::error::LexError;
use fe_lexer::lexer::Lexer;
use fe_lexer::token::Token;

fn lines(text: &[&str]) -> Vec<String> {
    text.iter().map(|line| line.to_string()).collect()
}

#[test]
fn blank_and_comment_lines_yield_nothing() {
    let lexer = Lexer::new();
    for line in ["", " ", "\t\t", " \u{a0} \r\n", "#", "# a = b", "   #x", "#;"] {
        assert_eq!(lexer.tokenize_line(line), Ok(vec![]));
    }
    let input = lines(&["", "# first", "   ", "\t# second = 1;", "#"]);
    assert_eq!(lexer.tokenize_lines(&input), Ok(vec![]));
    assert_eq!(lexer.tokenize_lines(&Vec::new()), Ok(vec![]));
}

#[test]
fn terminated_lines_succeed() {
    let lexer = Lexer::new();
    for line in ["x;", ";", "a b c;", "x = (1 + 2);", "a += b ;  ", "f()", "{", "x }"] {
        assert!(lexer.tokenize_line(line).is_ok());
    }
}

#[test]
fn trailing_content_fails_with_the_line() {
    let lexer = Lexer::new();
    for line in ["x", "x = 5; y", "a + b", "variable", "   return value   ", "1.5"] {
        assert_eq!(
            lexer.tokenize_line(line),
            Err(LexError::MalformedStatement(line.trim().to_string()))
        );
    }
}

#[test]
fn lines_are_tokenized_in_order() {
    let lexer = Lexer::new();
    let input = lines(&[
        "# a small program",
        "class Counter {",
        "    private {",
        "        variable count: uint64 = 0;",
        "",
        "    }",
        "    public {",
        "        method bump() {",
        "            count += 1;",
        "        }",
        "    }",
        "}",
    ]);
    assert_eq!(
        lexer.tokenize_lines(&input),
        Ok(vec![
            Token::ClassDeclaration("class"),
            Token::Identifier("Counter".to_string()),
            Token::LeftBracket('{'),
            Token::PrivateClassRegion("private"),
            Token::LeftBracket('{'),
            Token::VariableDeclaration("variable"),
            Token::Identifier("count".to_string()),
            Token::Colon(':'),
            Token::UnsignedSixtyFourBitInteger("uint64"),
            Token::EqualSign('='),
            Token::IntegerLiteral("0".to_string()),
            Token::Punctuation(';'),
            Token::RightBracket('}'),
            Token::PublicClassRegion("public"),
            Token::LeftBracket('{'),
            Token::MethodDeclaration("method"),
            Token::Identifier("bump".to_string()),
            Token::LeftParenthesis('('),
            Token::RightParenthesis(')'),
            Token::LeftBracket('{'),
            Token::Identifier("count".to_string()),
            Token::IncrementAndAssign("+="),
            Token::IntegerLiteral("1".to_string()),
            Token::Punctuation(';'),
            Token::RightBracket('}'),
            Token::RightBracket('}'),
            Token::RightBracket('}'),
        ])
    );
}

#[test]
fn lines_agree_with_line_by_line() {
    let lexer = Lexer::new();
    let input = lines(&["a = 1;", "# note", "b = a + 2;", "", "f(b);"]);
    let mut expected = Vec::new();
    for line in &input {
        expected.extend(lexer.tokenize_line(line).unwrap());
    }
    assert_eq!(expected.len(), 15);
    assert_eq!(lexer.tokenize_lines(&input), Ok(expected));
}

#[test]
fn first_malformed_line_fails_the_run() {
    let lexer = Lexer::new();
    let input = lines(&["a = 1;", "  b = 2  ", "c = 3;", "d = 4"]);
    assert_eq!(
        lexer.tokenize_lines(&input),
        Err(LexError::MalformedStatement("b = 2".to_string()))
    );
    let input = lines(&["a = 1;", "c = 3;", "d = 4"]);
    assert_eq!(
        lexer.tokenize_lines(&input),
        Err(LexError::MalformedStatement("d = 4".to_string()))
    );
}

#[test]
fn tokens_spell_the_line_without_its_whitespace() {
    let lexer = Lexer::new();
    for line in [
        "variable x: sint32 = 5;",
        "a += 1;",
        "  return -> value ;  ",
        "f(a,b)==g( c );",
        "x=-5*(y/2.5);",
        "class\tPoint\u{a0}{",
        ";;;",
        "a<b>c:d;",
    ] {
        let spelled: String = lexer
            .tokenize_line(line)
            .unwrap()
            .iter()
            .map(|token| token.text())
            .collect();
        let expected: String = line.chars().filter(|c| !c.is_whitespace()).collect();
        assert_eq!(spelled, expected);
    }
}

#[test]
fn tokens_hold_no_whitespace_and_are_not_empty() {
    let lexer = Lexer::new();
    let tokens = lexer
        .tokenize_line(" \t a  +=\u{3000}b ; c(d) ; # e f g")
        .unwrap();
    assert_eq!(tokens.len(), 9);
    for token in tokens {
        let text = token.text();
        assert!(!text.is_empty());
        assert!(!text.chars().any(|c| c.is_whitespace()));
    }
}
