//! Tokens: the classified units that the lexer hands to a parser.

use vstd::prelude::*;
use crate::alphabet::{
    is_grouping_char,
    is_operator_char,
    is_punctuation_char,
    is_scope_char,
    lemma_reserved_words,
};
use crate::literal::{
    has_float_shape,
    integer_value,
    is_digit,
    is_float_literal,
    is_integer_literal,
    parse_integer,
    sign_len,
};
use crate::text::chars_of;

verus! {

/// The lexical categories. Every token belongs to exactly one of them.
#[derive(Debug, Clone, Copy, PartialEq, Eq, Structural)]
pub enum Category {
    /// Integer and floating-point literals.
    Literal,
    /// Names that are not reserved.
    Identifier,
    /// The single-character operators.
    Operator,
    /// The two-character operators.
    CompoundOperator,
    /// Parentheses.
    Grouping,
    /// Braces.
    Scope,
    /// The statement terminator.
    Punctuation,
    /// The keywords that open a declaration.
    DeclarationKeyword,
    /// The keywords that open a region of a class body.
    ClassRegion,
    /// The names of the built-in types.
    TypeName,
}

/// What a token is, apart from the text it was read from.
#[derive(Debug, Clone, Copy, PartialEq, Eq, Structural)]
pub enum TokenKind {
    /// An integer literal, kept as it was written so that no width is imposed on it.
    IntegerLiteral,
    /// A floating-point literal, kept as it was written.
    FloatLiteral,
    /// The statement terminator `;`.
    Punctuation,
    /// A name that is not reserved.
    Identifier,
    /// The keyword `public`.
    PublicClassRegion,
    /// The keyword `private`.
    PrivateClassRegion,
    /// The keyword `class`.
    ClassDeclaration,
    /// The keyword `function`.
    FunctionDeclaration,
    /// The keyword `method`.
    MethodDeclaration,
    /// The keyword `constant`.
    ConstantDeclaration,
    /// The keyword `variable`.
    VariableDeclaration,
    /// The operator `+`.
    PlusSign,
    /// The operator `-`.
    MinusSign,
    /// The operator `*`.
    MultiplicationSign,
    /// The operator `/`.
    DivisionSign,
    /// The operator `=`.
    EqualSign,
    /// The operator `:`.
    Colon,
    /// The operator `>`.
    GreaterThan,
    /// The operator `<`.
    LessThan,
    /// The operator `+=`.
    IncrementAndAssign,
    /// The operator `-=`.
    DecrementAndAssign,
    /// The operator `*=`.
    MultiplyAndAssign,
    /// The operator `/=`.
    DivideAndAssign,
    /// The operator `->`.
    ReturnTypeArrow,
    /// The operator `==`.
    EqualityCheck,
    /// The grouping symbol `(`.
    LeftParenthesis,
    /// The grouping symbol `)`.
    RightParenthesis,
    /// The type name `uint8`.
    UnsignedEightBitInteger,
    /// The type name `uint16`.
    UnsignedSixteenBitInteger,
    /// The type name `uint32`.
    UnsignedThirtyTwoBitInteger,
    /// The type name `uint64`.
    UnsignedSixtyFourBitInteger,
    /// The type name `sint8`.
    SignedEightBitInteger,
    /// The type name `sint16`.
    SignedSixteenBitInteger,
    /// The type name `sint32`.
    SignedThirtyTwoBitInteger,
    /// The type name `sint64`.
    SignedSixtyFourBitInteger,
    /// The type name `boolean`.
    Boolean,
    /// The type name `usize`.
    UnsignedSize,
    /// The type name `ssize`.
    SignedSize,
    /// The scope delimiter `{`.
    LeftBracket,
    /// The scope delimiter `}`.
    RightBracket,
}

/// A token as the contracts see it: its kind and the text it stands for.
pub struct TokenView {
    pub kind: TokenKind,
    pub text: Seq<char>,
}

/// A classified lexeme.
///
/// The reserved tokens carry their own spelling; literals and identifiers
/// carry the text they were read from.
#[derive(Debug, Clone, PartialEq, Eq)]
pub enum Token {
    /// An integer literal, kept as it was written so that no width is imposed on it.
    IntegerLiteral(String),
    /// A floating-point literal, kept as it was written.
    FloatLiteral(String),
    /// The statement terminator `;`.
    Punctuation(char),
    /// A name that is not reserved.
    Identifier(String),
    /// The keyword `public`.
    PublicClassRegion(&'static str),
    /// The keyword `private`.
    PrivateClassRegion(&'static str),
    /// The keyword `class`.
    ClassDeclaration(&'static str),
    /// The keyword `function`.
    FunctionDeclaration(&'static str),
    /// The keyword `method`.
    MethodDeclaration(&'static str),
    /// The keyword `constant`.
    ConstantDeclaration(&'static str),
    /// The keyword `variable`.
    VariableDeclaration(&'static str),
    /// The operator `+`.
    PlusSign(char),
    /// The operator `-`.
    MinusSign(char),
    /// The operator `*`.
    MultiplicationSign(char),
    /// The operator `/`.
    DivisionSign(char),
    /// The operator `=`.
    EqualSign(char),
    /// The operator `:`.
    Colon(char),
    /// The operator `>`.
    GreaterThan(char),
    /// The operator `<`.
    LessThan(char),
    /// The operator `+=`.
    IncrementAndAssign(&'static str),
    /// The operator `-=`.
    DecrementAndAssign(&'static str),
    /// The operator `*=`.
    MultiplyAndAssign(&'static str),
    /// The operator `/=`.
    DivideAndAssign(&'static str),
    /// The operator `->`.
    ReturnTypeArrow(&'static str),
    /// The operator `==`.
    EqualityCheck(&'static str),
    /// The grouping symbol `(`.
    LeftParenthesis(char),
    /// The grouping symbol `)`.
    RightParenthesis(char),
    /// The type name `uint8`.
    UnsignedEightBitInteger(&'static str),
    /// The type name `uint16`.
    UnsignedSixteenBitInteger(&'static str),
    /// The type name `uint32`.
    UnsignedThirtyTwoBitInteger(&'static str),
    /// The type name `uint64`.
    UnsignedSixtyFourBitInteger(&'static str),
    /// The type name `sint8`.
    SignedEightBitInteger(&'static str),
    /// The type name `sint16`.
    SignedSixteenBitInteger(&'static str),
    /// The type name `sint32`.
    SignedThirtyTwoBitInteger(&'static str),
    /// The type name `sint64`.
    SignedSixtyFourBitInteger(&'static str),
    /// The type name `boolean`.
    Boolean(&'static str),
    /// The type name `usize`.
    UnsignedSize(&'static str),
    /// The type name `ssize`.
    SignedSize(&'static str),
    /// The scope delimiter `{`.
    LeftBracket(char),
    /// The scope delimiter `}`.
    RightBracket(char),
}

impl TokenKind {
    /// The kind of token that the lexeme `word` denotes.
    ///
    /// The categories are tried in a fixed order and the first that matches
    /// wins: scope delimiters, declaration keywords, class regions, compound
    /// operators, operators, grouping symbols, punctuation, type names,
    /// floating-point literals, integer literals. A word that is none of
    /// these is an identifier.
    pub open spec fn of(word: Seq<char>) -> TokenKind {
        if word == "{"@ {
            TokenKind::LeftBracket
        } else if word == "}"@ {
            TokenKind::RightBracket
        } else if word == "class"@ {
            TokenKind::ClassDeclaration
        } else if word == "function"@ {
            TokenKind::FunctionDeclaration
        } else if word == "method"@ {
            TokenKind::MethodDeclaration
        } else if word == "variable"@ {
            TokenKind::VariableDeclaration
        } else if word == "constant"@ {
            TokenKind::ConstantDeclaration
        } else if word == "public"@ {
            TokenKind::PublicClassRegion
        } else if word == "private"@ {
            TokenKind::PrivateClassRegion
        } else if word == "+="@ {
            TokenKind::IncrementAndAssign
        } else if word == "-="@ {
            TokenKind::DecrementAndAssign
        } else if word == "/="@ {
            TokenKind::DivideAndAssign
        } else if word == "*="@ {
            TokenKind::MultiplyAndAssign
        } else if word == "->"@ {
            TokenKind::ReturnTypeArrow
        } else if word == "=="@ {
            TokenKind::EqualityCheck
        } else if word == "*"@ {
            TokenKind::MultiplicationSign
        } else if word == "+"@ {
            TokenKind::PlusSign
        } else if word == "/"@ {
            TokenKind::DivisionSign
        } else if word == "-"@ {
            TokenKind::MinusSign
        } else if word == "="@ {
            TokenKind::EqualSign
        } else if word == ":"@ {
            TokenKind::Colon
        } else if word == ">"@ {
            TokenKind::GreaterThan
        } else if word == "<"@ {
            TokenKind::LessThan
        } else if word == "("@ {
            TokenKind::LeftParenthesis
        } else if word == ")"@ {
            TokenKind::RightParenthesis
        } else if word == ";"@ {
            TokenKind::Punctuation
        } else if word == "sint8"@ {
            TokenKind::SignedEightBitInteger
        } else if word == "uint8"@ {
            TokenKind::UnsignedEightBitInteger
        } else if word == "sint16"@ {
            TokenKind::SignedSixteenBitInteger
        } else if word == "uint16"@ {
            TokenKind::UnsignedSixteenBitInteger
        } else if word == "sint32"@ {
            TokenKind::SignedThirtyTwoBitInteger
        } else if word == "uint32"@ {
            TokenKind::UnsignedThirtyTwoBitInteger
        } else if word == "sint64"@ {
            TokenKind::SignedSixtyFourBitInteger
        } else if word == "uint64"@ {
            TokenKind::UnsignedSixtyFourBitInteger
        } else if word == "usize"@ {
            TokenKind::UnsignedSize
        } else if word == "ssize"@ {
            TokenKind::SignedSize
        } else if word == "boolean"@ {
            TokenKind::Boolean
        } else if is_float_literal(word) {
            TokenKind::FloatLiteral
        } else if is_integer_literal(word) {
            TokenKind::IntegerLiteral
        } else {
            TokenKind::Identifier
        }
    }

    /// The one spelling of a reserved token; literals and identifiers have
    /// none of their own.
    pub open spec fn spelling(self) -> Option<Seq<char>> {
        match self {
            TokenKind::IntegerLiteral => None,
            TokenKind::FloatLiteral => None,
            TokenKind::Punctuation => Some(";"@),
            TokenKind::Identifier => None,
            TokenKind::PublicClassRegion => Some("public"@),
            TokenKind::PrivateClassRegion => Some("private"@),
            TokenKind::ClassDeclaration => Some("class"@),
            TokenKind::FunctionDeclaration => Some("function"@),
            TokenKind::MethodDeclaration => Some("method"@),
            TokenKind::ConstantDeclaration => Some("constant"@),
            TokenKind::VariableDeclaration => Some("variable"@),
            TokenKind::PlusSign => Some("+"@),
            TokenKind::MinusSign => Some("-"@),
            TokenKind::MultiplicationSign => Some("*"@),
            TokenKind::DivisionSign => Some("/"@),
            TokenKind::EqualSign => Some("="@),
            TokenKind::Colon => Some(":"@),
            TokenKind::GreaterThan => Some(">"@),
            TokenKind::LessThan => Some("<"@),
            TokenKind::IncrementAndAssign => Some("+="@),
            TokenKind::DecrementAndAssign => Some("-="@),
            TokenKind::MultiplyAndAssign => Some("*="@),
            TokenKind::DivideAndAssign => Some("/="@),
            TokenKind::ReturnTypeArrow => Some("->"@),
            TokenKind::EqualityCheck => Some("=="@),
            TokenKind::LeftParenthesis => Some("("@),
            TokenKind::RightParenthesis => Some(")"@),
            TokenKind::UnsignedEightBitInteger => Some("uint8"@),
            TokenKind::UnsignedSixteenBitInteger => Some("uint16"@),
            TokenKind::UnsignedThirtyTwoBitInteger => Some("uint32"@),
            TokenKind::UnsignedSixtyFourBitInteger => Some("uint64"@),
            TokenKind::SignedEightBitInteger => Some("sint8"@),
            TokenKind::SignedSixteenBitInteger => Some("sint16"@),
            TokenKind::SignedThirtyTwoBitInteger => Some("sint32"@),
            TokenKind::SignedSixtyFourBitInteger => Some("sint64"@),
            TokenKind::Boolean => Some("boolean"@),
            TokenKind::UnsignedSize => Some("usize"@),
            TokenKind::SignedSize => Some("ssize"@),
            TokenKind::LeftBracket => Some("{"@),
            TokenKind::RightBracket => Some("}"@),
        }
    }

    /// The category that this kind of token belongs to.
    pub open spec fn spec_category(self) -> Category {
        match self {
            TokenKind::IntegerLiteral => Category::Literal,
            TokenKind::FloatLiteral => Category::Literal,
            TokenKind::Punctuation => Category::Punctuation,
            TokenKind::Identifier => Category::Identifier,
            TokenKind::PublicClassRegion => Category::ClassRegion,
            TokenKind::PrivateClassRegion => Category::ClassRegion,
            TokenKind::ClassDeclaration => Category::DeclarationKeyword,
            TokenKind::FunctionDeclaration => Category::DeclarationKeyword,
            TokenKind::MethodDeclaration => Category::DeclarationKeyword,
            TokenKind::ConstantDeclaration => Category::DeclarationKeyword,
            TokenKind::VariableDeclaration => Category::DeclarationKeyword,
            TokenKind::PlusSign => Category::Operator,
            TokenKind::MinusSign => Category::Operator,
            TokenKind::MultiplicationSign => Category::Operator,
            TokenKind::DivisionSign => Category::Operator,
            TokenKind::EqualSign => Category::Operator,
            TokenKind::Colon => Category::Operator,
            TokenKind::GreaterThan => Category::Operator,
            TokenKind::LessThan => Category::Operator,
            TokenKind::IncrementAndAssign => Category::CompoundOperator,
            TokenKind::DecrementAndAssign => Category::CompoundOperator,
            TokenKind::MultiplyAndAssign => Category::CompoundOperator,
            TokenKind::DivideAndAssign => Category::CompoundOperator,
            TokenKind::ReturnTypeArrow => Category::CompoundOperator,
            TokenKind::EqualityCheck => Category::CompoundOperator,
            TokenKind::LeftParenthesis => Category::Grouping,
            TokenKind::RightParenthesis => Category::Grouping,
            TokenKind::UnsignedEightBitInteger => Category::TypeName,
            TokenKind::UnsignedSixteenBitInteger => Category::TypeName,
            TokenKind::UnsignedThirtyTwoBitInteger => Category::TypeName,
            TokenKind::UnsignedSixtyFourBitInteger => Category::TypeName,
            TokenKind::SignedEightBitInteger => Category::TypeName,
            TokenKind::SignedSixteenBitInteger => Category::TypeName,
            TokenKind::SignedThirtyTwoBitInteger => Category::TypeName,
            TokenKind::SignedSixtyFourBitInteger => Category::TypeName,
            TokenKind::Boolean => Category::TypeName,
            TokenKind::UnsignedSize => Category::TypeName,
            TokenKind::SignedSize => Category::TypeName,
            TokenKind::LeftBracket => Category::Scope,
            TokenKind::RightBracket => Category::Scope,
        }
    }

    /// The category that this kind of token belongs to.
    #[verifier::when_used_as_spec(spec_category)]
    pub fn category(self) -> (category: Category)
        ensures
            category == self.spec_category(),
    {
        match self {
            TokenKind::IntegerLiteral
            | TokenKind::FloatLiteral => Category::Literal,
            TokenKind::Punctuation => Category::Punctuation,
            TokenKind::Identifier => Category::Identifier,
            TokenKind::PublicClassRegion
            | TokenKind::PrivateClassRegion => Category::ClassRegion,
            TokenKind::ClassDeclaration
            | TokenKind::FunctionDeclaration
            | TokenKind::MethodDeclaration
            | TokenKind::ConstantDeclaration
            | TokenKind::VariableDeclaration => Category::DeclarationKeyword,
            TokenKind::PlusSign
            | TokenKind::MinusSign
            | TokenKind::MultiplicationSign
            | TokenKind::DivisionSign
            | TokenKind::EqualSign
            | TokenKind::Colon
            | TokenKind::GreaterThan
            | TokenKind::LessThan => Category::Operator,
            TokenKind::IncrementAndAssign
            | TokenKind::DecrementAndAssign
            | TokenKind::MultiplyAndAssign
            | TokenKind::DivideAndAssign
            | TokenKind::ReturnTypeArrow
            | TokenKind::EqualityCheck => Category::CompoundOperator,
            TokenKind::LeftParenthesis
            | TokenKind::RightParenthesis => Category::Grouping,
            TokenKind::UnsignedEightBitInteger
            | TokenKind::UnsignedSixteenBitInteger
            | TokenKind::UnsignedThirtyTwoBitInteger
            | TokenKind::UnsignedSixtyFourBitInteger
            | TokenKind::SignedEightBitInteger
            | TokenKind::SignedSixteenBitInteger
            | TokenKind::SignedThirtyTwoBitInteger
            | TokenKind::SignedSixtyFourBitInteger
            | TokenKind::Boolean
            | TokenKind::UnsignedSize
            | TokenKind::SignedSize => Category::TypeName,
            TokenKind::LeftBracket
            | TokenKind::RightBracket => Category::Scope,
        }
    }
}

impl View for Token {
    type V = TokenView;

    open spec fn view(&self) -> TokenView {
        match *self {
            Token::IntegerLiteral(text) => TokenView {
                kind: TokenKind::IntegerLiteral,
                text: text@,
            },
            Token::FloatLiteral(text) => TokenView { kind: TokenKind::FloatLiteral, text: text@ },
            Token::Punctuation(c) => TokenView { kind: TokenKind::Punctuation, text: seq![c] },
            Token::Identifier(text) => TokenView { kind: TokenKind::Identifier, text: text@ },
            Token::PublicClassRegion(text) => TokenView {
                kind: TokenKind::PublicClassRegion,
                text: text@,
            },
            Token::PrivateClassRegion(text) => TokenView {
                kind: TokenKind::PrivateClassRegion,
                text: text@,
            },
            Token::ClassDeclaration(text) => TokenView {
                kind: TokenKind::ClassDeclaration,
                text: text@,
            },
            Token::FunctionDeclaration(text) => TokenView {
                kind: TokenKind::FunctionDeclaration,
                text: text@,
            },
            Token::MethodDeclaration(text) => TokenView {
                kind: TokenKind::MethodDeclaration,
                text: text@,
            },
            Token::ConstantDeclaration(text) => TokenView {
                kind: TokenKind::ConstantDeclaration,
                text: text@,
            },
            Token::VariableDeclaration(text) => TokenView {
                kind: TokenKind::VariableDeclaration,
                text: text@,
            },
            Token::PlusSign(c) => TokenView { kind: TokenKind::PlusSign, text: seq![c] },
            Token::MinusSign(c) => TokenView { kind: TokenKind::MinusSign, text: seq![c] },
            Token::MultiplicationSign(c) => TokenView {
                kind: TokenKind::MultiplicationSign,
                text: seq![c],
            },
            Token::DivisionSign(c) => TokenView { kind: TokenKind::DivisionSign, text: seq![c] },
            Token::EqualSign(c) => TokenView { kind: TokenKind::EqualSign, text: seq![c] },
            Token::Colon(c) => TokenView { kind: TokenKind::Colon, text: seq![c] },
            Token::GreaterThan(c) => TokenView { kind: TokenKind::GreaterThan, text: seq![c] },
            Token::LessThan(c) => TokenView { kind: TokenKind::LessThan, text: seq![c] },
            Token::IncrementAndAssign(text) => TokenView {
                kind: TokenKind::IncrementAndAssign,
                text: text@,
            },
            Token::DecrementAndAssign(text) => TokenView {
                kind: TokenKind::DecrementAndAssign,
                text: text@,
            },
            Token::MultiplyAndAssign(text) => TokenView {
                kind: TokenKind::MultiplyAndAssign,
                text: text@,
            },
            Token::DivideAndAssign(text) => TokenView {
                kind: TokenKind::DivideAndAssign,
                text: text@,
            },
            Token::ReturnTypeArrow(text) => TokenView {
                kind: TokenKind::ReturnTypeArrow,
                text: text@,
            },
            Token::EqualityCheck(text) => TokenView { kind: TokenKind::EqualityCheck, text: text@ },
            Token::LeftParenthesis(c) => TokenView {
                kind: TokenKind::LeftParenthesis,
                text: seq![c],
            },
            Token::RightParenthesis(c) => TokenView {
                kind: TokenKind::RightParenthesis,
                text: seq![c],
            },
            Token::UnsignedEightBitInteger(text) => TokenView {
                kind: TokenKind::UnsignedEightBitInteger,
                text: text@,
            },
            Token::UnsignedSixteenBitInteger(text) => TokenView {
                kind: TokenKind::UnsignedSixteenBitInteger,
                text: text@,
            },
            Token::UnsignedThirtyTwoBitInteger(text) => TokenView {
                kind: TokenKind::UnsignedThirtyTwoBitInteger,
                text: text@,
            },
            Token::UnsignedSixtyFourBitInteger(text) => TokenView {
                kind: TokenKind::UnsignedSixtyFourBitInteger,
                text: text@,
            },
            Token::SignedEightBitInteger(text) => TokenView {
                kind: TokenKind::SignedEightBitInteger,
                text: text@,
            },
            Token::SignedSixteenBitInteger(text) => TokenView {
                kind: TokenKind::SignedSixteenBitInteger,
                text: text@,
            },
            Token::SignedThirtyTwoBitInteger(text) => TokenView {
                kind: TokenKind::SignedThirtyTwoBitInteger,
                text: text@,
            },
            Token::SignedSixtyFourBitInteger(text) => TokenView {
                kind: TokenKind::SignedSixtyFourBitInteger,
                text: text@,
            },
            Token::Boolean(text) => TokenView { kind: TokenKind::Boolean, text: text@ },
            Token::UnsignedSize(text) => TokenView { kind: TokenKind::UnsignedSize, text: text@ },
            Token::SignedSize(text) => TokenView { kind: TokenKind::SignedSize, text: text@ },
            Token::LeftBracket(c) => TokenView { kind: TokenKind::LeftBracket, text: seq![c] },
            Token::RightBracket(c) => TokenView { kind: TokenKind::RightBracket, text: seq![c] },
        }
    }
}

/// What the classifier makes of the lexeme `word`: a token of the kind that
/// the word denotes, standing for exactly that word.
pub open spec fn classify(word: Seq<char>) -> TokenView {
    TokenView { kind: TokenKind::of(word), text: word }
}

/// Whether the tokens are, one for one and in order, what the classifier
/// makes of the lexemes.
pub open spec fn classified(tokens: Seq<Token>, lexemes: Seq<Seq<char>>) -> bool {
    &&& tokens.len() == lexemes.len()
    &&& forall|i: int| 0 <= i < tokens.len() ==> (#[trigger] tokens[i])@ == classify(lexemes[i])
}

/// A reserved token is found again from its spelling: classifying the
/// spelling of any kind that has one yields that kind. In particular no two
/// reserved words are spelled alike.
pub proof fn lemma_spelling_classifies(kind: TokenKind)
    requires
        kind.spelling() is Some,
    ensures
        TokenKind::of(kind.spelling()->0) == kind,
{
    lemma_reserved_words();
}

/// A numeric literal is no reserved word, and the two kinds of literal do
/// not overlap: a word with the shape of an integer literal classifies as an
/// integer literal, one with the shape of a floating-point literal as such.
pub proof fn lemma_literal_classifies(word: Seq<char>)
    ensures
        is_float_literal(word) ==> TokenKind::of(word) == TokenKind::FloatLiteral,
        is_integer_literal(word) ==> TokenKind::of(word) == TokenKind::IntegerLiteral,
{
    lemma_reserved_words();
    if is_integer_literal(word) {
        // An integer literal has a digit where a floating-point literal
        // would have its point.
        let digits = word.subrange(sign_len(word), word.len() as int);
        assert(is_digit(digits[0]));
        assert forall|point: int, end: int| !has_float_shape(word, point, end) by {
            if has_float_shape(word, point, end) {
                assert(digits[point - sign_len(word)] == word[point]);
            }
        }
    }
}

/// Each separator that is not whitespace is a token of its own category,
/// whatever stands around it: an operator character classifies as an
/// operator, a parenthesis as a grouping symbol, a brace as a scope
/// delimiter and the terminator as punctuation.
pub proof fn lemma_symbol_category(c: char)
    ensures
        is_operator_char(c) ==> classify(seq![c]).kind.category() == Category::Operator,
        is_grouping_char(c) ==> classify(seq![c]).kind.category() == Category::Grouping,
        is_scope_char(c) ==> classify(seq![c]).kind.category() == Category::Scope,
        is_punctuation_char(c) ==> classify(seq![c]).kind.category() == Category::Punctuation,
{
    lemma_reserved_words();
    assert("*"@ == seq!['*'] && "+"@ == seq!['+'] && "/"@ == seq!['/'] && "-"@ == seq!['-']);
    assert("="@ == seq!['='] && ":"@ == seq![':'] && ">"@ == seq!['>'] && "<"@ == seq!['<']);
    assert("("@ == seq!['('] && ")"@ == seq![')'] && ";"@ == seq![';']);
    assert("{"@ == seq!['{'] && "}"@ == seq!['}']);
}

/// Classifying is idempotent: the text of a classified lexeme classifies to
/// the same token again, so every token that the classifier yields is well
/// formed.
pub proof fn lemma_classify_idempotent(word: Seq<char>)
    ensures
        classify(classify(word).text) == classify(word),
        forall|token: Token| token@ == classify(word) ==> token.is_well_formed(),
{
}

impl Token {
    /// A token is well formed when the classifier yields it for its own text.
    /// These are the tokens that a lexer produces; a token put together by
    /// hand with another payload, such as a plus sign that holds `x`, is not
    /// among them.
    pub open spec fn is_well_formed(&self) -> bool {
        self@ == classify(self@.text)
    }

    /// What this token is.
    pub fn kind(&self) -> (kind: TokenKind)
        ensures
            kind == self@.kind,
    {
        match self {
            Token::IntegerLiteral(_) => TokenKind::IntegerLiteral,
            Token::FloatLiteral(_) => TokenKind::FloatLiteral,
            Token::Punctuation(_) => TokenKind::Punctuation,
            Token::Identifier(_) => TokenKind::Identifier,
            Token::PublicClassRegion(_) => TokenKind::PublicClassRegion,
            Token::PrivateClassRegion(_) => TokenKind::PrivateClassRegion,
            Token::ClassDeclaration(_) => TokenKind::ClassDeclaration,
            Token::FunctionDeclaration(_) => TokenKind::FunctionDeclaration,
            Token::MethodDeclaration(_) => TokenKind::MethodDeclaration,
            Token::ConstantDeclaration(_) => TokenKind::ConstantDeclaration,
            Token::VariableDeclaration(_) => TokenKind::VariableDeclaration,
            Token::PlusSign(_) => TokenKind::PlusSign,
            Token::MinusSign(_) => TokenKind::MinusSign,
            Token::MultiplicationSign(_) => TokenKind::MultiplicationSign,
            Token::DivisionSign(_) => TokenKind::DivisionSign,
            Token::EqualSign(_) => TokenKind::EqualSign,
            Token::Colon(_) => TokenKind::Colon,
            Token::GreaterThan(_) => TokenKind::GreaterThan,
            Token::LessThan(_) => TokenKind::LessThan,
            Token::IncrementAndAssign(_) => TokenKind::IncrementAndAssign,
            Token::DecrementAndAssign(_) => TokenKind::DecrementAndAssign,
            Token::MultiplyAndAssign(_) => TokenKind::MultiplyAndAssign,
            Token::DivideAndAssign(_) => TokenKind::DivideAndAssign,
            Token::ReturnTypeArrow(_) => TokenKind::ReturnTypeArrow,
            Token::EqualityCheck(_) => TokenKind::EqualityCheck,
            Token::LeftParenthesis(_) => TokenKind::LeftParenthesis,
            Token::RightParenthesis(_) => TokenKind::RightParenthesis,
            Token::UnsignedEightBitInteger(_) => TokenKind::UnsignedEightBitInteger,
            Token::UnsignedSixteenBitInteger(_) => TokenKind::UnsignedSixteenBitInteger,
            Token::UnsignedThirtyTwoBitInteger(_) => TokenKind::UnsignedThirtyTwoBitInteger,
            Token::UnsignedSixtyFourBitInteger(_) => TokenKind::UnsignedSixtyFourBitInteger,
            Token::SignedEightBitInteger(_) => TokenKind::SignedEightBitInteger,
            Token::SignedSixteenBitInteger(_) => TokenKind::SignedSixteenBitInteger,
            Token::SignedThirtyTwoBitInteger(_) => TokenKind::SignedThirtyTwoBitInteger,
            Token::SignedSixtyFourBitInteger(_) => TokenKind::SignedSixtyFourBitInteger,
            Token::Boolean(_) => TokenKind::Boolean,
            Token::UnsignedSize(_) => TokenKind::UnsignedSize,
            Token::SignedSize(_) => TokenKind::SignedSize,
            Token::LeftBracket(_) => TokenKind::LeftBracket,
            Token::RightBracket(_) => TokenKind::RightBracket,
        }
    }

    /// The category that this token belongs to.
    pub fn category(&self) -> (category: Category)
        ensures
            category == self@.kind.category(),
    {
        self.kind().category()
    }

    /// The text that this token stands for.
    pub fn text(&self) -> (text: String)
        ensures
            text@ == self@.text,
    {
        match self {
            Token::IntegerLiteral(text)
            | Token::FloatLiteral(text)
            | Token::Identifier(text) => text.clone(),
            Token::Punctuation(c)
            | Token::PlusSign(c)
            | Token::MinusSign(c)
            | Token::MultiplicationSign(c)
            | Token::DivisionSign(c)
            | Token::EqualSign(c)
            | Token::Colon(c)
            | Token::GreaterThan(c)
            | Token::LessThan(c)
            | Token::LeftParenthesis(c)
            | Token::RightParenthesis(c)
            | Token::LeftBracket(c)
            | Token::RightBracket(c) => {
                let mut text = String::new();
                text.push(*c);
                text
            },
            Token::PublicClassRegion(text)
            | Token::PrivateClassRegion(text)
            | Token::ClassDeclaration(text)
            | Token::FunctionDeclaration(text)
            | Token::MethodDeclaration(text)
            | Token::ConstantDeclaration(text)
            | Token::VariableDeclaration(text)
            | Token::IncrementAndAssign(text)
            | Token::DecrementAndAssign(text)
            | Token::MultiplyAndAssign(text)
            | Token::DivideAndAssign(text)
            | Token::ReturnTypeArrow(text)
            | Token::EqualityCheck(text)
            | Token::UnsignedEightBitInteger(text)
            | Token::UnsignedSixteenBitInteger(text)
            | Token::UnsignedThirtyTwoBitInteger(text)
            | Token::UnsignedSixtyFourBitInteger(text)
            | Token::SignedEightBitInteger(text)
            | Token::SignedSixteenBitInteger(text)
            | Token::SignedThirtyTwoBitInteger(text)
            | Token::SignedSixtyFourBitInteger(text)
            | Token::Boolean(text)
            | Token::UnsignedSize(text)
            | Token::SignedSize(text) => (*text).to_owned(),
        }
    }

    /// The value of an integer literal, where it fits the machine's signed
    /// word; `None` for every other token and for a literal out of that range.
    pub fn integer_value(&self) -> (value: Option<isize>)
        ensures
            match value {
                Some(v) => self@.kind == TokenKind::IntegerLiteral && is_integer_literal(
                    self@.text,
                ) && v == integer_value(self@.text),
                None => self@.kind != TokenKind::IntegerLiteral || !is_integer_literal(self@.text)
                    || !(isize::MIN <= integer_value(self@.text) <= isize::MAX),
            },
    {
        match self {
            Token::IntegerLiteral(text) => {
                let chars = chars_of(text.as_str());
                parse_integer(chars.as_slice())
            },
            _ => None,
        }
    }
}

} // verus!
