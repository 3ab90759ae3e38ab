//! The lexer: from lines of source text to tokens.

use vstd::prelude::*;
use vstd::slice::slice_subrange;
use crate::alphabet::{
    Alphabet,
    COMMENT_MARKER,
    is_class_region,
    is_compound_operator,
    is_declaration_keyword,
    is_operator_char,
    is_punctuation_char,
    is_separator,
    is_type_name,
    lemma_reserved_words,
    lemma_standard_alphabet,
    trim,
};
use crate::error::LexError;
use crate::literal::{float_literal, integer_literal, is_float_literal, is_integer_literal};
use crate::scan::{
    Lexing,
    Scan,
    lemma_lex_lines_fails_for_good,
    lemma_scan_finished,
    lex_line,
    lex_lines,
    reveals_compound,
    scan,
};
use crate::text::{begins, chars_of, same_text, single_char, string_of, trim_bounds, whitespace};
use crate::token::{
    Category,
    Token,
    TokenKind,
    classified,
    classify,
    lemma_literal_classifies,
    lemma_spelling_classifies,
};

verus! {

/// A lexer for the language. It holds the tables of the lexical alphabet,
/// which are the same for every lexer and never change.
pub struct Lexer<'a> {
    valid_operators: [char; 8],
    valid_compound_operators: [&'a str; 6],
    valid_grouping_symbols: [char; 2],
    valid_scope_symbols: [char; 2],
    valid_punctuations: [char; 1],
    valid_type_names: [&'a str; 11],
    valid_declaration_keywords: [&'a str; 5],
    valid_class_regions: [&'a str; 2],
}

impl<'a> View for Lexer<'a> {
    type V = Alphabet;

    closed spec fn view(&self) -> Alphabet {
        Alphabet {
            operators: self.valid_operators@,
            compound_operators: self.valid_compound_operators.deep_view(),
            grouping_symbols: self.valid_grouping_symbols@,
            scope_symbols: self.valid_scope_symbols@,
            punctuations: self.valid_punctuations@,
            type_names: self.valid_type_names.deep_view(),
            declaration_keywords: self.valid_declaration_keywords.deep_view(),
            class_regions: self.valid_class_regions.deep_view(),
        }
    }
}

/// Whether `c` stands in `table`.
fn lists_char<const N: usize>(table: &[char; N], c: char) -> (found: bool)
    ensures
        found == table@.contains(c),
{
    let mut i: usize = 0;
    while i < N
        invariant
            i <= N == table@.len(),
            forall|j: int| 0 <= j < i ==> table@[j] != c,
        decreases N - i,
    {
        if table[i] == c {
            return true;
        }
        i += 1;
    }
    false
}

/// Whether `word` stands in `table`.
fn lists_word<const N: usize>(table: &[&str; N], word: &str) -> (found: bool)
    ensures
        found == table.deep_view().contains(word@),
{
    let mut i: usize = 0;
    while i < N
        invariant
            i <= N == table@.len(),
            table.deep_view().len() == N,
            forall|j: int| 0 <= j < i ==> table.deep_view()[j] != word@,
        decreases N - i,
    {
        assert(table.deep_view()[i as int] == table@[i as int]@);
        if same_text(table[i], word) {
            return true;
        }
        i += 1;
    }
    false
}

/// Whether some word in `table` begins with `word`.
fn lists_beginning<const N: usize>(table: &[&str; N], word: &[char]) -> (found: bool)
    ensures
        found == exists|i: int| 0 <= i < N && word@.is_prefix_of(#[trigger] table.deep_view()[i]),
{
    let mut i: usize = 0;
    while i < N
        invariant
            i <= N == table@.len(),
            table.deep_view().len() == N,
            forall|j: int| 0 <= j < i ==> !word@.is_prefix_of(#[trigger] table.deep_view()[j]),
        decreases N - i,
    {
        assert(table.deep_view()[i as int] == table@[i as int]@);
        if begins(word, table[i]) {
            return true;
        }
        i += 1;
    }
    false
}

impl<'a> Lexer<'a> {
    #[verifier::type_invariant]
    spec fn holds_the_standard_alphabet(self) -> bool {
        self@ == Alphabet::standard()
    }

    /// A lexer for the standard alphabet.
    pub fn new() -> (lexer: Self)
        ensures
            lexer@ == Alphabet::standard(),
    {
        let valid_operators = ['*', '+', '/', '-', '=', ':', '>', '<'];
        let valid_compound_operators = ["+=", "-=", "/=", "*=", "->", "=="];
        let valid_grouping_symbols = ['(', ')'];
        let valid_scope_symbols = ['{', '}'];
        let valid_punctuations = [';'];
        let valid_type_names = [
            "sint8",
            "uint8",
            "sint16",
            "uint16",
            "sint32",
            "uint32",
            "sint64",
            "uint64",
            "usize",
            "ssize",
            "boolean",
        ];
        let valid_declaration_keywords = ["class", "function", "method", "variable", "constant"];
        let valid_class_regions = ["public", "private"];
        proof {
            let a = Alphabet::standard();
            assert(valid_operators@ =~= a.operators);
            assert(valid_compound_operators.deep_view() =~= a.compound_operators);
            assert(valid_grouping_symbols@ =~= a.grouping_symbols);
            assert(valid_scope_symbols@ =~= a.scope_symbols);
            assert(valid_punctuations@ =~= a.punctuations);
            assert(valid_type_names.deep_view() =~= a.type_names);
            assert(valid_declaration_keywords.deep_view() =~= a.declaration_keywords);
            assert(valid_class_regions.deep_view() =~= a.class_regions);
        }
        Lexer {
            valid_operators,
            valid_compound_operators,
            valid_grouping_symbols,
            valid_scope_symbols,
            valid_punctuations,
            valid_type_names,
            valid_declaration_keywords,
            valid_class_regions,
        }
    }

    /// Whether `word` is one of the two-character operators.
    pub fn is_a_compound_operator(&self, word: &str) -> (yes: bool)
        ensures
            yes == is_compound_operator(word@),
    {
        proof {
            use_type_invariant(self);
            lemma_standard_alphabet();
        }
        lists_word(&self.valid_compound_operators, word)
    }

    /// Whether `word` is one of the single-character operators.
    pub fn is_an_operator(&self, word: &str) -> (yes: bool)
        ensures
            yes == (word@.len() == 1 && is_operator_char(word@[0])),
    {
        proof {
            use_type_invariant(self);
            lemma_standard_alphabet();
        }
        match single_char(word) {
            Some(c) => lists_char(&self.valid_operators, c),
            None => false,
        }
    }

    /// Whether `word` is the name of a built-in type.
    pub fn is_a_fe_type(&self, word: &str) -> (yes: bool)
        ensures
            yes == is_type_name(word@),
    {
        proof {
            use_type_invariant(self);
            lemma_standard_alphabet();
        }
        lists_word(&self.valid_type_names, word)
    }

    /// Whether `character` ends the lexeme that is being accumulated.
    pub fn separates_a_lexeme(&self, character: &char) -> (yes: bool)
        ensures
            yes == is_separator(*character),
    {
        proof {
            use_type_invariant(self);
            lemma_standard_alphabet();
        }
        lists_char(&self.valid_operators, *character) || whitespace(*character) || lists_char(
            &self.valid_punctuations,
            *character,
        ) || lists_char(&self.valid_scope_symbols, *character) || lists_char(
            &self.valid_grouping_symbols,
            *character,
        )
    }

    /// Whether `word` is the statement terminator.
    pub fn is_a_punctuation(&self, word: &str) -> (yes: bool)
        ensures
            yes == (word@.len() == 1 && is_punctuation_char(word@[0])),
    {
        proof {
            use_type_invariant(self);
            lemma_standard_alphabet();
        }
        match single_char(word) {
            Some(c) => lists_char(&self.valid_punctuations, c),
            None => false,
        }
    }

    /// Whether `word` is a keyword that opens a region of a class body.
    pub fn is_a_class_region(&self, word: &str) -> (yes: bool)
        ensures
            yes == is_class_region(word@),
    {
        proof {
            use_type_invariant(self);
            lemma_standard_alphabet();
        }
        lists_word(&self.valid_class_regions, word)
    }

    /// Whether `word` is a keyword that opens a declaration.
    pub fn is_a_declaration_keyword(&self, word: &str) -> (yes: bool)
        ensures
            yes == is_declaration_keyword(word@),
    {
        proof {
            use_type_invariant(self);
            lemma_standard_alphabet();
        }
        lists_word(&self.valid_declaration_keywords, word)
    }

    /// Whether the operator character `current_char` belongs to the lexeme
    /// that is being accumulated instead of ending it: whether it is, or may
    /// yet become, part of a compound operator.
    ///
    /// `peeked_char` is the character that follows on the line, which is not
    /// consumed, and `potential_incomplete_operator` is the lexeme accumulated
    /// so far.
    pub fn peeking_reveals_compound(
        &self,
        current_char: &char,
        peeked_char: &Option<&char>,
        potential_incomplete_operator: &str,
    ) -> (yes: bool)
        ensures
            yes == reveals_compound(
                *current_char,
                match *peeked_char {
                    Some(next) => Some(*next),
                    None => None,
                },
                potential_incomplete_operator@,
            ),
    {
        proof {
            use_type_invariant(self);
            lemma_standard_alphabet();
        }
        if !lists_char(&self.valid_operators, *current_char) || whitespace(*current_char) {
            return false;
        }
        if let Some(next_char) = peeked_char {
            if lists_char(&self.valid_operators, **next_char) {
                return true;
            }
        }
        let mut combined_operator = chars_of(potential_incomplete_operator);
        combined_operator.push(*current_char);
        let (from, to) = trim_bounds(combined_operator.as_slice());
        let candidate = slice_subrange(combined_operator.as_slice(), from, to);
        let found = lists_beginning(&self.valid_compound_operators, candidate);
        found
    }

    /// The token that the lexeme `word` denotes.
    ///
    /// Classifying never fails: a word that is nothing else is an identifier.
    pub fn classify_word(&self, word: &str) -> (result: Result<Token, LexError>)
        ensures
            result matches Ok(token) && token@ == classify(word@) && token.is_well_formed(),
    {
        proof {
            lemma_reserved_words();
        }
        if same_text(word, "{") {
            assert(word@ == seq!['{']);
            Ok(Token::LeftBracket('{'))
        } else if same_text(word, "}") {
            assert(word@ == seq!['}']);
            Ok(Token::RightBracket('}'))
        } else if self.is_a_declaration_keyword(word) {
            self.new_declaration_keyword(word)
        } else if self.is_a_class_region(word) {
            self.new_class_region(word)
        } else if self.is_a_compound_operator(word) {
            self.new_compound_operator(word)
        } else if self.is_an_operator(word) {
            self.new_operator(word)
        } else if same_text(word, "(") {
            assert(word@ == seq!['(']);
            Ok(Token::LeftParenthesis('('))
        } else if same_text(word, ")") {
            assert(word@ == seq![')']);
            Ok(Token::RightParenthesis(')'))
        } else if self.is_a_punctuation(word) {
            self.new_punctuation(word)
        } else if self.is_a_fe_type(word) {
            self.new_type_name(word)
        } else {
            let chars = chars_of(word);
            if float_literal(chars.as_slice()) {
                self.new_float_literal(word)
            } else if integer_literal(chars.as_slice()) {
                self.new_integer_literal(word)
            } else {
                Ok(Token::Identifier(word.to_owned()))
            }
        }
    }

    /// The compound-operator token that `word` spells.
    pub fn new_compound_operator(&self, word: &str) -> (result: Result<Token, LexError>)
        ensures
            match result {
                Ok(token) => is_compound_operator(word@) && token@ == classify(word@),
                Err(LexError::NotInCategory(category, culprit)) => !is_compound_operator(word@)
                    && category == Category::CompoundOperator && culprit@ == word@,
                Err(_) => false,
            },
    {
        proof {
            lemma_spelling_classifies(TokenKind::IncrementAndAssign);
            lemma_spelling_classifies(TokenKind::DecrementAndAssign);
            lemma_spelling_classifies(TokenKind::MultiplyAndAssign);
            lemma_spelling_classifies(TokenKind::DivideAndAssign);
            lemma_spelling_classifies(TokenKind::ReturnTypeArrow);
            lemma_spelling_classifies(TokenKind::EqualityCheck);
        }
        if same_text(word, "+=") {
            Ok(Token::IncrementAndAssign("+="))
        } else if same_text(word, "-=") {
            Ok(Token::DecrementAndAssign("-="))
        } else if same_text(word, "*=") {
            Ok(Token::MultiplyAndAssign("*="))
        } else if same_text(word, "/=") {
            Ok(Token::DivideAndAssign("/="))
        } else if same_text(word, "->") {
            Ok(Token::ReturnTypeArrow("->"))
        } else if same_text(word, "==") {
            Ok(Token::EqualityCheck("=="))
        } else {
            Err(LexError::NotInCategory(Category::CompoundOperator, word.to_owned()))
        }
    }

    /// The floating-point literal token that `float_literal` spells.
    pub fn new_float_literal(&self, float_literal: &str) -> (result: Result<Token, LexError>)
        ensures
            match result {
                Ok(token) => is_float_literal(float_literal@) && token@ == classify(
                    float_literal@,
                ),
                Err(LexError::UnparsableLiteral(culprit)) => !is_float_literal(float_literal@)
                    && culprit@ == float_literal@,
                Err(_) => false,
            },
    {
        let chars = chars_of(float_literal);
        if crate::literal::float_literal(chars.as_slice()) {
            proof {
                lemma_literal_classifies(float_literal@);
            }
            Ok(Token::FloatLiteral(float_literal.to_owned()))
        } else {
            Err(LexError::UnparsableLiteral(float_literal.to_owned()))
        }
    }

    /// The integer literal token that `integer_literal` spells.
    pub fn new_integer_literal(&self, integer_literal: &str) -> (result: Result<Token, LexError>)
        ensures
            match result {
                Ok(token) => is_integer_literal(integer_literal@) && token@ == classify(
                    integer_literal@,
                ),
                Err(LexError::UnparsableLiteral(culprit)) => !is_integer_literal(integer_literal@)
                    && culprit@ == integer_literal@,
                Err(_) => false,
            },
    {
        let chars = chars_of(integer_literal);
        if crate::literal::integer_literal(chars.as_slice()) {
            proof {
                lemma_literal_classifies(integer_literal@);
            }
            Ok(Token::IntegerLiteral(integer_literal.to_owned()))
        } else {
            Err(LexError::UnparsableLiteral(integer_literal.to_owned()))
        }
    }

    /// The punctuation token that `word` spells.
    pub fn new_punctuation(&self, word: &str) -> (result: Result<Token, LexError>)
        ensures
            match result {
                Ok(token) => word@.len() == 1 && is_punctuation_char(word@[0]) && token@
                    == classify(word@),
                Err(LexError::NotACharacter(culprit)) => word@.len() != 1 && culprit@ == word@,
                Err(LexError::NotInCategory(category, culprit)) => word@.len() == 1
                    && !is_punctuation_char(word@[0]) && category == Category::Punctuation
                    && culprit@ == word@,
                Err(_) => false,
            },
    {
        proof {
            use_type_invariant(self);
            lemma_standard_alphabet();
            lemma_reserved_words();
            lemma_spelling_classifies(TokenKind::Punctuation);
        }
        match single_char(word) {
            Some(punc) => {
                if lists_char(&self.valid_punctuations, punc) {
                    assert(word@ == ";"@);
                    Ok(Token::Punctuation(punc))
                } else {
                    Err(LexError::NotInCategory(Category::Punctuation, word.to_owned()))
                }
            },
            None => Err(LexError::NotACharacter(word.to_owned())),
        }
    }

    /// The type-name token that `word` spells.
    pub fn new_type_name(&self, word: &str) -> (result: Result<Token, LexError>)
        ensures
            match result {
                Ok(token) => is_type_name(word@) && token@ == classify(word@),
                Err(LexError::NotInCategory(category, culprit)) => !is_type_name(word@) && category
                    == Category::TypeName && culprit@ == word@,
                Err(_) => false,
            },
    {
        proof {
            lemma_spelling_classifies(TokenKind::UnsignedEightBitInteger);
            lemma_spelling_classifies(TokenKind::UnsignedSixteenBitInteger);
            lemma_spelling_classifies(TokenKind::UnsignedThirtyTwoBitInteger);
            lemma_spelling_classifies(TokenKind::UnsignedSixtyFourBitInteger);
            lemma_spelling_classifies(TokenKind::SignedEightBitInteger);
            lemma_spelling_classifies(TokenKind::SignedSixteenBitInteger);
            lemma_spelling_classifies(TokenKind::SignedThirtyTwoBitInteger);
            lemma_spelling_classifies(TokenKind::SignedSixtyFourBitInteger);
            lemma_spelling_classifies(TokenKind::SignedSize);
            lemma_spelling_classifies(TokenKind::UnsignedSize);
            lemma_spelling_classifies(TokenKind::Boolean);
        }
        if same_text(word, "uint8") {
            Ok(Token::UnsignedEightBitInteger("uint8"))
        } else if same_text(word, "uint16") {
            Ok(Token::UnsignedSixteenBitInteger("uint16"))
        } else if same_text(word, "uint32") {
            Ok(Token::UnsignedThirtyTwoBitInteger("uint32"))
        } else if same_text(word, "uint64") {
            Ok(Token::UnsignedSixtyFourBitInteger("uint64"))
        } else if same_text(word, "sint8") {
            Ok(Token::SignedEightBitInteger("sint8"))
        } else if same_text(word, "sint16") {
            Ok(Token::SignedSixteenBitInteger("sint16"))
        } else if same_text(word, "sint32") {
            Ok(Token::SignedThirtyTwoBitInteger("sint32"))
        } else if same_text(word, "sint64") {
            Ok(Token::SignedSixtyFourBitInteger("sint64"))
        } else if same_text(word, "ssize") {
            Ok(Token::SignedSize("ssize"))
        } else if same_text(word, "usize") {
            Ok(Token::UnsignedSize("usize"))
        } else if same_text(word, "boolean") {
            Ok(Token::Boolean("boolean"))
        } else {
            Err(LexError::NotInCategory(Category::TypeName, word.to_owned()))
        }
    }

    /// The operator token that `word` spells.
    pub fn new_operator(&self, word: &str) -> (result: Result<Token, LexError>)
        ensures
            match result {
                Ok(token) => word@.len() == 1 && is_operator_char(word@[0]) && token@ == classify(
                    word@,
                ),
                Err(LexError::NotACharacter(culprit)) => word@.len() != 1 && culprit@ == word@,
                Err(LexError::NotInCategory(category, culprit)) => word@.len() == 1
                    && !is_operator_char(word@[0]) && category == Category::Operator && culprit@
                    == word@,
                Err(_) => false,
            },
    {
        proof {
            lemma_reserved_words();
            lemma_spelling_classifies(TokenKind::PlusSign);
            lemma_spelling_classifies(TokenKind::MinusSign);
            lemma_spelling_classifies(TokenKind::MultiplicationSign);
            lemma_spelling_classifies(TokenKind::DivisionSign);
            lemma_spelling_classifies(TokenKind::EqualSign);
            lemma_spelling_classifies(TokenKind::Colon);
            lemma_spelling_classifies(TokenKind::GreaterThan);
            lemma_spelling_classifies(TokenKind::LessThan);
        }
        match single_char(word) {
            Some(op) => {
                if op == '+' {
                    assert(word@ == "+"@);
                    Ok(Token::PlusSign('+'))
                } else if op == '-' {
                    assert(word@ == "-"@);
                    Ok(Token::MinusSign('-'))
                } else if op == '*' {
                    assert(word@ == "*"@);
                    Ok(Token::MultiplicationSign('*'))
                } else if op == '/' {
                    assert(word@ == "/"@);
                    Ok(Token::DivisionSign('/'))
                } else if op == '=' {
                    assert(word@ == "="@);
                    Ok(Token::EqualSign('='))
                } else if op == ':' {
                    assert(word@ == ":"@);
                    Ok(Token::Colon(':'))
                } else if op == '>' {
                    assert(word@ == ">"@);
                    Ok(Token::GreaterThan('>'))
                } else if op == '<' {
                    assert(word@ == "<"@);
                    Ok(Token::LessThan('<'))
                } else {
                    Err(LexError::NotInCategory(Category::Operator, word.to_owned()))
                }
            },
            None => Err(LexError::NotACharacter(word.to_owned())),
        }
    }

    /// The class-region token that `word` spells.
    pub fn new_class_region(&self, word: &str) -> (result: Result<Token, LexError>)
        ensures
            match result {
                Ok(token) => is_class_region(word@) && token@ == classify(word@),
                Err(LexError::NotInCategory(category, culprit)) => !is_class_region(word@)
                    && category == Category::ClassRegion && culprit@ == word@,
                Err(_) => false,
            },
    {
        proof {
            lemma_spelling_classifies(TokenKind::PublicClassRegion);
            lemma_spelling_classifies(TokenKind::PrivateClassRegion);
        }
        if same_text(word, "public") {
            Ok(Token::PublicClassRegion("public"))
        } else if same_text(word, "private") {
            Ok(Token::PrivateClassRegion("private"))
        } else {
            Err(LexError::NotInCategory(Category::ClassRegion, word.to_owned()))
        }
    }

    /// The declaration-keyword token that `word` spells.
    pub fn new_declaration_keyword(&self, word: &str) -> (result: Result<Token, LexError>)
        ensures
            match result {
                Ok(token) => is_declaration_keyword(word@) && token@ == classify(word@),
                Err(LexError::NotInCategory(category, culprit)) => !is_declaration_keyword(word@)
                    && category == Category::DeclarationKeyword && culprit@ == word@,
                Err(_) => false,
            },
    {
        proof {
            lemma_spelling_classifies(TokenKind::ClassDeclaration);
            lemma_spelling_classifies(TokenKind::MethodDeclaration);
            lemma_spelling_classifies(TokenKind::FunctionDeclaration);
            lemma_spelling_classifies(TokenKind::ConstantDeclaration);
            lemma_spelling_classifies(TokenKind::VariableDeclaration);
        }
        if same_text(word, "class") {
            Ok(Token::ClassDeclaration("class"))
        } else if same_text(word, "method") {
            Ok(Token::MethodDeclaration("method"))
        } else if same_text(word, "function") {
            Ok(Token::FunctionDeclaration("function"))
        } else if same_text(word, "constant") {
            Ok(Token::ConstantDeclaration("constant"))
        } else if same_text(word, "variable") {
            Ok(Token::VariableDeclaration("variable"))
        } else {
            Err(LexError::NotInCategory(Category::DeclarationKeyword, word.to_owned()))
        }
    }

    /// The tokens of one line of source text.
    ///
    /// The line is trimmed. A blank line and a line that begins with the
    /// comment marker have no tokens. Otherwise the line is cut into lexemes
    /// and each lexeme is classified; a lexeme that is exactly the comment
    /// marker ends the line there. A line that ends in the middle of a lexeme
    /// is malformed, and the failure holds the trimmed line.
    pub fn tokenize_line(&self, line: &str) -> (result: Result<Vec<Token>, LexError>)
        ensures
            match result {
                Ok(tokens) => lex_line(line@) matches Lexing::Lexemes(lexemes) && classified(
                    tokens@,
                    lexemes,
                ),
                Err(LexError::MalformedStatement(culprit)) => lex_line(line@) == Lexing::Malformed(
                    culprit@,
                ),
                Err(_) => false,
            },
    {
        let characters = chars_of(line);
        let (from, to) = trim_bounds(characters.as_slice());
        let text = slice_subrange(characters.as_slice(), from, to);
        let count = text.len();
        let mut tokens: Vec<Token> = Vec::new();
        if count > 0 && text[0] == COMMENT_MARKER {
            return Ok(tokens);
        }
        let mut most_recent_lexeme = String::new();
        let ghost mut lexemes: Seq<Seq<char>> = Seq::empty();
        let mut i: usize = 0;
        while i < count
            invariant
                i <= count == text@.len(),
                text@ == trim(line@),
                !(count > 0 && text@[0] == COMMENT_MARKER),
                scan(text@, i as int) == (Scan {
                    lexemes,
                    pending: most_recent_lexeme@,
                    finished: false,
                }),
                classified(tokens@, lexemes),
            decreases count - i,
        {
            let character = text[i];
            let peeked: Option<&char> = if i + 1 < count {
                Some(&text[i + 1])
            } else {
                None
            };
            if !self.separates_a_lexeme(&character) || self.peeking_reveals_compound(
                &character,
                &peeked,
                most_recent_lexeme.as_str(),
            ) {
                most_recent_lexeme.push(character);
            } else {
                proof {
                    reveal_strlit("#");
                    assert("#"@ == seq![COMMENT_MARKER]);
                }
                if same_text(most_recent_lexeme.as_str(), "#") {
                    proof {
                        lemma_scan_finished(text@, i + 1, count as int);
                    }
                    return Ok(tokens);
                }
                if !most_recent_lexeme.as_str().is_empty() {
                    match self.classify_word(most_recent_lexeme.as_str()) {
                        Ok(token) => {
                            tokens.push(token);
                            proof {
                                lexemes = lexemes.push(most_recent_lexeme@);
                            }
                        },
                        Err(error) => {
                            return Err(error);
                        },
                    }
                }
                if !whitespace(character) {
                    let mut symbol = String::new();
                    symbol.push(character);
                    match self.classify_word(symbol.as_str()) {
                        Ok(token) => {
                            tokens.push(token);
                            proof {
                                lexemes = lexemes.push(symbol@);
                            }
                        },
                        Err(error) => {
                            return Err(error);
                        },
                    }
                }
                most_recent_lexeme = String::new();
            }
            i += 1;
        }
        if most_recent_lexeme.as_str().is_empty() {
            Ok(tokens)
        } else {
            Err(LexError::MalformedStatement(string_of(text)))
        }
    }

    /// The tokens of a run of lines, in order.
    ///
    /// The first malformed line fails the whole run: no token of any line is
    /// handed out then.
    pub fn tokenize_lines(&self, lines: &Vec<String>) -> (result: Result<Vec<Token>, LexError>)
        ensures
            match result {
                Ok(tokens) => lex_lines(lines.deep_view()) matches Lexing::Lexemes(lexemes)
                    && classified(tokens@, lexemes),
                Err(LexError::MalformedStatement(culprit)) => lex_lines(lines.deep_view())
                    == Lexing::Malformed(culprit@),
                Err(_) => false,
            },
    {
        let mut tokens: Vec<Token> = Vec::new();
        let ghost mut lexemes: Seq<Seq<char>> = Seq::empty();
        let mut i: usize = 0;
        while i < lines.len()
            invariant
                i <= lines.len(),
                lex_lines(lines.deep_view().take(i as int)) == Lexing::Lexemes(lexemes),
                classified(tokens@, lexemes),
            decreases lines.len() - i,
        {
            proof {
                let read = lines.deep_view().take(i + 1);
                assert(read.drop_last() == lines.deep_view().take(i as int));
            }
            match self.tokenize_line(lines[i].as_str()) {
                Ok(mut line_tokens) => {
                    proof {
                        let line_lexemes = lex_line(lines[i as int]@)->Lexemes_0;
                        lexemes = lexemes + line_lexemes;
                    }
                    tokens.append(&mut line_tokens);
                },
                Err(error) => {
                    proof {
                        lemma_lex_lines_fails_for_good(lines.deep_view(), i + 1);
                    }
                    return Err(error);
                },
            }
            i += 1;
        }
        assert(lines.deep_view().take(i as int) == lines.deep_view());
        Ok(tokens)
    }
}

} // verus!
