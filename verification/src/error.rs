//! The ways in which lexing fails.

use vstd::prelude::*;
use vstd::string::StringExecFns;
use crate::token::Category;

verus! {

/// A failure of the lexer. Each holds the text that caused it.
#[derive(Debug, Clone, PartialEq, Eq)]
pub enum LexError {
    /// A line ended in the middle of a lexeme, so its last statement was
    /// never closed. Holds the line, without the whitespace around it.
    MalformedStatement(String),
    /// A word that was to become a numeric literal is none.
    UnparsableLiteral(String),
    /// A word that was to become a single-character token is not one
    /// character long.
    NotACharacter(String),
    /// A word that was to become a token of the given category does not
    /// belong to it.
    NotInCategory(Category, String),
}

/// How a category is called in a message.
pub open spec fn category_name(category: Category) -> Seq<char> {
    match category {
        Category::Literal => "literal"@,
        Category::Identifier => "identifier"@,
        Category::Operator => "operator"@,
        Category::CompoundOperator => "compound operator"@,
        Category::Grouping => "grouping symbol"@,
        Category::Scope => "scope symbol"@,
        Category::Punctuation => "punctuation"@,
        Category::DeclarationKeyword => "declaration keyword"@,
        Category::ClassRegion => "class region"@,
        Category::TypeName => "type"@,
    }
}

fn name_of(category: Category) -> (name: &'static str)
    ensures
        name@ == category_name(category),
{
    match category {
        Category::Literal => "literal",
        Category::Identifier => "identifier",
        Category::Operator => "operator",
        Category::CompoundOperator => "compound operator",
        Category::Grouping => "grouping symbol",
        Category::Scope => "scope symbol",
        Category::Punctuation => "punctuation",
        Category::DeclarationKeyword => "declaration keyword",
        Category::ClassRegion => "class region",
        Category::TypeName => "type",
    }
}

impl LexError {
    /// The text that caused the failure.
    pub open spec fn culprit(&self) -> Seq<char> {
        match self {
            LexError::MalformedStatement(line) => line@,
            LexError::UnparsableLiteral(word) => word@,
            LexError::NotACharacter(word) => word@,
            LexError::NotInCategory(_, word) => word@,
        }
    }

    /// The message that describes the failure to a user. It always quotes
    /// the text that caused it.
    pub open spec fn message_text(&self) -> Seq<char> {
        match self {
            LexError::MalformedStatement(line) => "Line did not end in punctuation!: "@ + line@,
            LexError::UnparsableLiteral(word) => word@ + ": Not parseable to a number"@,
            LexError::NotACharacter(word) => word@ + ": Not parseable to char"@,
            LexError::NotInCategory(category, word) => "Not a valid "@ + category_name(*category)
                + ": "@ + word@,
        }
    }

    /// The message that describes the failure to a user.
    pub fn message(&self) -> (message: String)
        ensures
            message@ == self.message_text(),
    {
        match self {
            LexError::MalformedStatement(line) => {
                String::from_str("Line did not end in punctuation!: ").concat(line.as_str())
            },
            LexError::UnparsableLiteral(word) => word.clone().concat(": Not parseable to a number"),
            LexError::NotACharacter(word) => word.clone().concat(": Not parseable to char"),
            LexError::NotInCategory(category, word) => {
                String::from_str("Not a valid ").concat(name_of(*category)).concat(": ").concat(
                    word.as_str(),
                )
            },
        }
    }
}

} // verus!
