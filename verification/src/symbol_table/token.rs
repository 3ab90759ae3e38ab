//! The symbols that the table is keyed by.
//!
//! A symbol of this module records the class of a token and the text it was
//! made from; which characters belong to which class is the lexer's matter,
//! not decided here.

use vstd::prelude::*;
use crate::error::LexError;
use crate::literal::{integer_value, is_integer_literal, parse_integer};
use crate::text::{chars_of, single_char};

verus! {

/// A symbol: a token reduced to its class.
#[derive(Debug, Clone, PartialEq, Eq, Hash)]
pub enum Token {
    /// An integer literal, by its value.
    NumberLiteral(isize),
    /// A name.
    Identifier(String),
    /// The operator for addition.
    PlusSign(char),
    /// The operator for subtraction.
    MinusSign(char),
    /// The operator for multiplication.
    MultiplicationSign(char),
    /// The operator for division.
    DivisionSign(char),
    /// The operator for assignment.
    EqualSign(char),
    /// The colon between a name and its type.
    Colon(char),
    /// The symbol that opens a group.
    LeftParenthesis(char),
    /// The symbol that closes a group.
    RightParenthesis(char),
    /// The name of a type.
    TypeName(String),
    /// A punctuation mark.
    Punctuation(char),
    /// A keyword that opens a declaration.
    DeclarationKeyword(String),
    /// A keyword that opens a region of a class body.
    ClassRegion(String),
    /// The symbol that opens a scope.
    LeftBracket(char),
    /// The symbol that closes a scope.
    RightBracket(char),
}

impl Token {
    /// A number literal with the value that `number_literal` spells.
    ///
    /// Fails where the word is no integer literal, and where its value does
    /// not fit the machine's signed word.
    pub fn new_number_literal(number_literal: &str) -> (result: Result<Self, LexError>)
        ensures
            match result {
                Ok(Token::NumberLiteral(value)) => is_integer_literal(number_literal@) && value
                    == integer_value(number_literal@),
                Ok(_) => false,
                Err(LexError::UnparsableLiteral(culprit)) => culprit@ == number_literal@ && (
                !is_integer_literal(number_literal@) || !(isize::MIN <= integer_value(
                    number_literal@,
                ) <= isize::MAX)),
                Err(_) => false,
            },
    {
        let chars = chars_of(number_literal);
        match parse_integer(chars.as_slice()) {
            Some(x) => Ok(Token::NumberLiteral(x)),
            None => Err(LexError::UnparsableLiteral(number_literal.to_owned())),
        }
    }


    /// An identifier that holds `identifier`.
    pub fn new_identifier(identifier: &str) -> (result: Result<Self, LexError>)
        ensures
            match result {
                Ok(Token::Identifier(text)) => text@ == identifier@,
                _ => false,
            },
    {
        Ok(Token::Identifier(identifier.to_owned()))
    }

    /// An equal sign that holds the one character of `equal_sign`.
    ///
    /// Fails where the word is not exactly one character long.
    pub fn new_equal_sign(equal_sign: &str) -> (result: Result<Self, LexError>)
        ensures
            match result {
                Ok(Token::EqualSign(c)) => equal_sign@ == seq![c],
                Ok(_) => false,
                Err(LexError::NotACharacter(culprit)) => equal_sign@.len() != 1 && culprit@
                    == equal_sign@,
                Err(_) => false,
            },
    {
        match single_char(equal_sign) {
            Some(x) => Ok(Token::EqualSign(x)),
            None => Err(LexError::NotACharacter(equal_sign.to_owned())),
        }
    }

    /// A plus sign that holds the one character of `plus_sign`.
    ///
    /// Fails where the word is not exactly one character long.
    pub fn new_plus_sign(plus_sign: &str) -> (result: Result<Self, LexError>)
        ensures
            match result {
                Ok(Token::PlusSign(c)) => plus_sign@ == seq![c],
                Ok(_) => false,
                Err(LexError::NotACharacter(culprit)) => plus_sign@.len() != 1 && culprit@
                    == plus_sign@,
                Err(_) => false,
            },
    {
        match single_char(plus_sign) {
            Some(x) => Ok(Token::PlusSign(x)),
            None => Err(LexError::NotACharacter(plus_sign.to_owned())),
        }
    }

    /// A minus sign that holds the one character of `minus_sign`.
    ///
    /// Fails where the word is not exactly one character long.
    pub fn new_minus_sign(minus_sign: &str) -> (result: Result<Self, LexError>)
        ensures
            match result {
                Ok(Token::MinusSign(c)) => minus_sign@ == seq![c],
                Ok(_) => false,
                Err(LexError::NotACharacter(culprit)) => minus_sign@.len() != 1 && culprit@
                    == minus_sign@,
                Err(_) => false,
            },
    {
        match single_char(minus_sign) {
            Some(x) => Ok(Token::MinusSign(x)),
            None => Err(LexError::NotACharacter(minus_sign.to_owned())),
        }
    }

    /// A division sign that holds the one character of `division_sign`.
    ///
    /// Fails where the word is not exactly one character long.
    pub fn new_division_sign(division_sign: &str) -> (result: Result<Self, LexError>)
        ensures
            match result {
                Ok(Token::DivisionSign(c)) => division_sign@ == seq![c],
                Ok(_) => false,
                Err(LexError::NotACharacter(culprit)) => division_sign@.len() != 1 && culprit@
                    == division_sign@,
                Err(_) => false,
            },
    {
        match single_char(division_sign) {
            Some(x) => Ok(Token::DivisionSign(x)),
            None => Err(LexError::NotACharacter(division_sign.to_owned())),
        }
    }

    /// A multiplication sign that holds the one character of `multiplication_sign`.
    ///
    /// Fails where the word is not exactly one character long.
    pub fn new_multiplication_sign(multiplication_sign: &str) -> (result: Result<Self, LexError>)
        ensures
            match result {
                Ok(Token::MultiplicationSign(c)) => multiplication_sign@ == seq![c],
                Ok(_) => false,
                Err(LexError::NotACharacter(culprit)) => multiplication_sign@.len() != 1 && culprit@
                    == multiplication_sign@,
                Err(_) => false,
            },
    {
        match single_char(multiplication_sign) {
            Some(x) => Ok(Token::MultiplicationSign(x)),
            None => Err(LexError::NotACharacter(multiplication_sign.to_owned())),
        }
    }

    /// A colon that holds the one character of `colon`.
    ///
    /// Fails where the word is not exactly one character long.
    pub fn new_colon(colon: &str) -> (result: Result<Self, LexError>)
        ensures
            match result {
                Ok(Token::Colon(c)) => colon@ == seq![c],
                Ok(_) => false,
                Err(LexError::NotACharacter(culprit)) => colon@.len() != 1 && culprit@
                    == colon@,
                Err(_) => false,
            },
    {
        match single_char(colon) {
            Some(x) => Ok(Token::Colon(x)),
            None => Err(LexError::NotACharacter(colon.to_owned())),
        }
    }

    /// A punctuation mark that holds the one character of `punctuation`.
    ///
    /// Fails where the word is not exactly one character long.
    pub fn new_punctuation(punctuation: &str) -> (result: Result<Self, LexError>)
        ensures
            match result {
                Ok(Token::Punctuation(c)) => punctuation@ == seq![c],
                Ok(_) => false,
                Err(LexError::NotACharacter(culprit)) => punctuation@.len() != 1 && culprit@
                    == punctuation@,
                Err(_) => false,
            },
    {
        match single_char(punctuation) {
            Some(x) => Ok(Token::Punctuation(x)),
            None => Err(LexError::NotACharacter(punctuation.to_owned())),
        }
    }

    /// A type name that holds `name`.
    pub fn new_type_name(name: &str) -> (result: Result<Self, LexError>)
        ensures
            match result {
                Ok(Token::TypeName(text)) => text@ == name@,
                _ => false,
            },
    {
        Ok(Token::TypeName(name.to_owned()))
    }

    /// A left parenthesis that holds the one character of `left_parenthesis`.
    ///
    /// Fails where the word is not exactly one character long.
    pub fn new_left_parenthesis(left_parenthesis: &str) -> (result: Result<Self, LexError>)
        ensures
            match result {
                Ok(Token::LeftParenthesis(c)) => left_parenthesis@ == seq![c],
                Ok(_) => false,
                Err(LexError::NotACharacter(culprit)) => left_parenthesis@.len() != 1 && culprit@
                    == left_parenthesis@,
                Err(_) => false,
            },
    {
        match single_char(left_parenthesis) {
            Some(x) => Ok(Token::LeftParenthesis(x)),
            None => Err(LexError::NotACharacter(left_parenthesis.to_owned())),
        }
    }

    /// A right parenthesis that holds the one character of `right_parenthesis`.
    ///
    /// Fails where the word is not exactly one character long.
    pub fn new_right_parenthesis(right_parenthesis: &str) -> (result: Result<Self, LexError>)
        ensures
            match result {
                Ok(Token::RightParenthesis(c)) => right_parenthesis@ == seq![c],
                Ok(_) => false,
                Err(LexError::NotACharacter(culprit)) => right_parenthesis@.len() != 1 && culprit@
                    == right_parenthesis@,
                Err(_) => false,
            },
    {
        match single_char(right_parenthesis) {
            Some(x) => Ok(Token::RightParenthesis(x)),
            None => Err(LexError::NotACharacter(right_parenthesis.to_owned())),
        }
    }

    /// A class region that holds `class_region`.
    pub fn new_class_region(class_region: &str) -> (result: Result<Self, LexError>)
        ensures
            match result {
                Ok(Token::ClassRegion(text)) => text@ == class_region@,
                _ => false,
            },
    {
        Ok(Token::ClassRegion(class_region.to_owned()))
    }

    /// A declaration keyword that holds `declaration_keyword`.
    pub fn new_declartion_keyword(declaration_keyword: &str) -> (result: Result<Self, LexError>)
        ensures
            match result {
                Ok(Token::DeclarationKeyword(text)) => text@ == declaration_keyword@,
                _ => false,
            },
    {
        Ok(Token::DeclarationKeyword(declaration_keyword.to_owned()))
    }

    /// A left bracket that holds the one character of `left_bracket`.
    ///
    /// Fails where the word is not exactly one character long.
    pub fn new_left_bracket(left_bracket: &str) -> (result: Result<Self, LexError>)
        ensures
            match result {
                Ok(Token::LeftBracket(c)) => left_bracket@ == seq![c],
                Ok(_) => false,
                Err(LexError::NotACharacter(culprit)) => left_bracket@.len() != 1 && culprit@
                    == left_bracket@,
                Err(_) => false,
            },
    {
        match single_char(left_bracket) {
            Some(x) => Ok(Token::LeftBracket(x)),
            None => Err(LexError::NotACharacter(left_bracket.to_owned())),
        }
    }

    /// A right bracket that holds the one character of `right_bracket`.
    ///
    /// Fails where the word is not exactly one character long.
    pub fn new_right_bracket(right_bracket: &str) -> (result: Result<Self, LexError>)
        ensures
            match result {
                Ok(Token::RightBracket(c)) => right_bracket@ == seq![c],
                Ok(_) => false,
                Err(LexError::NotACharacter(culprit)) => right_bracket@.len() != 1 && culprit@
                    == right_bracket@,
                Err(_) => false,
            },
    {
        match single_char(right_bracket) {
            Some(x) => Ok(Token::RightBracket(x)),
            None => Err(LexError::NotACharacter(right_bracket.to_owned())),
        }
    }
}

} // verus!
