use fe_lexer::error::LexError;
use fe_lexer::lexer::Lexer;
use fe_lexer::token::Category;

#[test]
fn malformed_statement_message_quotes_the_line() {
    let error = Lexer::new().tokenize_line("  x = 5  ").unwrap_err();
    assert_eq!(error, LexError::MalformedStatement("x = 5".to_string()));
    assert_eq!(error.message(), "Line did not end in punctuation!: x = 5");
}

#[test]
fn unparsable_literal_message() {
    let error = Lexer::new().new_integer_literal("12a").unwrap_err();
    assert_eq!(error, LexError::UnparsableLiteral("12a".to_string()));
    assert_eq!(error.message(), "12a: Not parseable to a number");
}

#[test]
fn not_a_character_message() {
    let error = Lexer::new().new_operator("++").unwrap_err();
    assert_eq!(error, LexError::NotACharacter("++".to_string()));
    assert_eq!(error.message(), "++: Not parseable to char");
}

#[test]
fn not_in_category_messages() {
    let message = |category: Category| LexError::NotInCategory(category, "w".to_string()).message();
    assert_eq!(message(Category::Literal), "Not a valid literal: w");
    assert_eq!(message(Category::Identifier), "Not a valid identifier: w");
    assert_eq!(message(Category::Operator), "Not a valid operator: w");
    assert_eq!(message(Category::CompoundOperator), "Not a valid compound operator: w");
    assert_eq!(message(Category::Grouping), "Not a valid grouping symbol: w");
    assert_eq!(message(Category::Scope), "Not a valid scope symbol: w");
    assert_eq!(message(Category::Punctuation), "Not a valid punctuation: w");
    assert_eq!(message(Category::DeclarationKeyword), "Not a valid declaration keyword: w");
    assert_eq!(message(Category::ClassRegion), "Not a valid class region: w");
    assert_eq!(message(Category::TypeName), "Not a valid type: w");
    let error = Lexer::new().new_type_name("float").unwrap_err();
    assert_eq!(error.message(), "Not a valid type: float");
}
