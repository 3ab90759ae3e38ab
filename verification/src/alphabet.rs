//! The fixed lexical alphabet of the language: which characters separate
//! lexemes and which words are reserved.
//!
//! Everything here is specification. The executable tables live in the lexer,
//! whose methods are proved to agree with these predicates.

use vstd::prelude::*;

verus! {

/// The character that starts a comment running to the end of the line.
pub const COMMENT_MARKER: char = '#';

/// The characters that carry the Unicode `White_Space` property.
pub open spec fn is_whitespace(c: char) -> bool {
    ||| '\u{9}' <= c <= '\u{d}'
    ||| c == ' '
    ||| c == '\u{85}'
    ||| c == '\u{a0}'
    ||| c == '\u{1680}'
    ||| '\u{2000}' <= c <= '\u{200a}'
    ||| c == '\u{2028}'
    ||| c == '\u{2029}'
    ||| c == '\u{202f}'
    ||| c == '\u{205f}'
    ||| c == '\u{3000}'
}

/// The single-character operators `* + / - = : > <`.
pub open spec fn is_operator_char(c: char) -> bool {
    c == '*' || c == '+' || c == '/' || c == '-' || c == '=' || c == ':' || c == '>' || c == '<'
}

/// The grouping symbols `(` and `)`.
pub open spec fn is_grouping_char(c: char) -> bool {
    c == '(' || c == ')'
}

/// The scope delimiters `{` and `}`.
pub open spec fn is_scope_char(c: char) -> bool {
    c == '{' || c == '}'
}

/// The statement terminator `;`.
pub open spec fn is_punctuation_char(c: char) -> bool {
    c == ';'
}

/// A separator ends the lexeme that is being accumulated, unless it turns out
/// to belong to a compound operator.
pub open spec fn is_separator(c: char) -> bool {
    ||| is_operator_char(c)
    ||| is_whitespace(c)
    ||| is_punctuation_char(c)
    ||| is_scope_char(c)
    ||| is_grouping_char(c)
}

/// The two-character operators `+= -= /= *= -> ==`.
pub open spec fn is_compound_operator(word: Seq<char>) -> bool {
    ||| word == "+="@
    ||| word == "-="@
    ||| word == "/="@
    ||| word == "*="@
    ||| word == "->"@
    ||| word == "=="@
}

/// Whether some compound operator begins with `word`.
pub open spec fn is_compound_operator_prefix(word: Seq<char>) -> bool {
    ||| word.is_prefix_of("+="@)
    ||| word.is_prefix_of("-="@)
    ||| word.is_prefix_of("/="@)
    ||| word.is_prefix_of("*="@)
    ||| word.is_prefix_of("->"@)
    ||| word.is_prefix_of("=="@)
}

/// The names of the built-in types.
pub open spec fn is_type_name(word: Seq<char>) -> bool {
    ||| word == "sint8"@
    ||| word == "uint8"@
    ||| word == "sint16"@
    ||| word == "uint16"@
    ||| word == "sint32"@
    ||| word == "uint32"@
    ||| word == "sint64"@
    ||| word == "uint64"@
    ||| word == "usize"@
    ||| word == "ssize"@
    ||| word == "boolean"@
}

/// The keywords that open a declaration.
pub open spec fn is_declaration_keyword(word: Seq<char>) -> bool {
    ||| word == "class"@
    ||| word == "function"@
    ||| word == "method"@
    ||| word == "variable"@
    ||| word == "constant"@
}

/// The keywords that open a region of a class body.
pub open spec fn is_class_region(word: Seq<char>) -> bool {
    word == "public"@ || word == "private"@
}

/// The tables that make up a lexical alphabet.
pub struct Alphabet {
    pub operators: Seq<char>,
    pub compound_operators: Seq<Seq<char>>,
    pub grouping_symbols: Seq<char>,
    pub scope_symbols: Seq<char>,
    pub punctuations: Seq<char>,
    pub type_names: Seq<Seq<char>>,
    pub declaration_keywords: Seq<Seq<char>>,
    pub class_regions: Seq<Seq<char>>,
}

impl Alphabet {
    /// The alphabet of the language.
    pub open spec fn standard() -> Alphabet {
        Alphabet {
            operators: seq!['*', '+', '/', '-', '=', ':', '>', '<'],
            compound_operators: seq!["+="@, "-="@, "/="@, "*="@, "->"@, "=="@],
            grouping_symbols: seq!['(', ')'],
            scope_symbols: seq!['{', '}'],
            punctuations: seq![';'],
            type_names: seq![
                "sint8"@,
                "uint8"@,
                "sint16"@,
                "uint16"@,
                "sint32"@,
                "uint32"@,
                "sint64"@,
                "uint64"@,
                "usize"@,
                "ssize"@,
                "boolean"@,
            ],
            declaration_keywords: seq![
                "class"@,
                "function"@,
                "method"@,
                "variable"@,
                "constant"@,
            ],
            class_regions: seq!["public"@, "private"@],
        }
    }
}

/// The predicates of this module say of a character or a word exactly that
/// it stands in the matching table of the standard alphabet.
pub proof fn lemma_standard_alphabet()
    ensures
        forall|c: char| is_operator_char(c) <==> Alphabet::standard().operators.contains(c),
        forall|c: char| is_grouping_char(c) <==> Alphabet::standard().grouping_symbols.contains(c),
        forall|c: char| is_scope_char(c) <==> Alphabet::standard().scope_symbols.contains(c),
        forall|c: char| is_punctuation_char(c) <==> Alphabet::standard().punctuations.contains(c),
        forall|w: Seq<char>|
            is_compound_operator(w) <==> Alphabet::standard().compound_operators.contains(w),
        forall|w: Seq<char>| is_type_name(w) <==> Alphabet::standard().type_names.contains(w),
        forall|w: Seq<char>|
            is_declaration_keyword(w) <==> Alphabet::standard().declaration_keywords.contains(w),
        forall|w: Seq<char>| is_class_region(w) <==> Alphabet::standard().class_regions.contains(w),
{
    assert(Alphabet::standard().punctuations[0] == ';');
}

/// What each reserved word holds, character by character.
pub proof fn lemma_reserved_words()
    ensures
        "{"@.len() == 1 && "{"@[0] == '{',
        "}"@.len() == 1 && "}"@[0] == '}',
        "class"@.len() == 5 && "class"@[0] == 'c' && "class"@[1] == 'l' && "class"@[2] == 'a'
            && "class"@[3] == 's' && "class"@[4] == 's',
        "function"@.len() == 8 && "function"@[0] == 'f' && "function"@[1] == 'u'
            && "function"@[2] == 'n' && "function"@[3] == 'c' && "function"@[4] == 't'
            && "function"@[5] == 'i' && "function"@[6] == 'o' && "function"@[7] == 'n',
        "method"@.len() == 6 && "method"@[0] == 'm' && "method"@[1] == 'e'
            && "method"@[2] == 't' && "method"@[3] == 'h' && "method"@[4] == 'o'
            && "method"@[5] == 'd',
        "variable"@.len() == 8 && "variable"@[0] == 'v' && "variable"@[1] == 'a'
            && "variable"@[2] == 'r' && "variable"@[3] == 'i' && "variable"@[4] == 'a'
            && "variable"@[5] == 'b' && "variable"@[6] == 'l' && "variable"@[7] == 'e',
        "constant"@.len() == 8 && "constant"@[0] == 'c' && "constant"@[1] == 'o'
            && "constant"@[2] == 'n' && "constant"@[3] == 's' && "constant"@[4] == 't'
            && "constant"@[5] == 'a' && "constant"@[6] == 'n' && "constant"@[7] == 't',
        "public"@.len() == 6 && "public"@[0] == 'p' && "public"@[1] == 'u'
            && "public"@[2] == 'b' && "public"@[3] == 'l' && "public"@[4] == 'i'
            && "public"@[5] == 'c',
        "private"@.len() == 7 && "private"@[0] == 'p' && "private"@[1] == 'r'
            && "private"@[2] == 'i' && "private"@[3] == 'v' && "private"@[4] == 'a'
            && "private"@[5] == 't' && "private"@[6] == 'e',
        "+="@.len() == 2 && "+="@[0] == '+' && "+="@[1] == '=',
        "-="@.len() == 2 && "-="@[0] == '-' && "-="@[1] == '=',
        "/="@.len() == 2 && "/="@[0] == '/' && "/="@[1] == '=',
        "*="@.len() == 2 && "*="@[0] == '*' && "*="@[1] == '=',
        "->"@.len() == 2 && "->"@[0] == '-' && "->"@[1] == '>',
        "=="@.len() == 2 && "=="@[0] == '=' && "=="@[1] == '=',
        "*"@.len() == 1 && "*"@[0] == '*',
        "+"@.len() == 1 && "+"@[0] == '+',
        "/"@.len() == 1 && "/"@[0] == '/',
        "-"@.len() == 1 && "-"@[0] == '-',
        "="@.len() == 1 && "="@[0] == '=',
        ":"@.len() == 1 && ":"@[0] == ':',
        ">"@.len() == 1 && ">"@[0] == '>',
        "<"@.len() == 1 && "<"@[0] == '<',
        "("@.len() == 1 && "("@[0] == '(',
        ")"@.len() == 1 && ")"@[0] == ')',
        ";"@.len() == 1 && ";"@[0] == ';',
        "sint8"@.len() == 5 && "sint8"@[0] == 's' && "sint8"@[1] == 'i' && "sint8"@[2] == 'n'
            && "sint8"@[3] == 't' && "sint8"@[4] == '8',
        "uint8"@.len() == 5 && "uint8"@[0] == 'u' && "uint8"@[1] == 'i' && "uint8"@[2] == 'n'
            && "uint8"@[3] == 't' && "uint8"@[4] == '8',
        "sint16"@.len() == 6 && "sint16"@[0] == 's' && "sint16"@[1] == 'i'
            && "sint16"@[2] == 'n' && "sint16"@[3] == 't' && "sint16"@[4] == '1'
            && "sint16"@[5] == '6',
        "uint16"@.len() == 6 && "uint16"@[0] == 'u' && "uint16"@[1] == 'i'
            && "uint16"@[2] == 'n' && "uint16"@[3] == 't' && "uint16"@[4] == '1'
            && "uint16"@[5] == '6',
        "sint32"@.len() == 6 && "sint32"@[0] == 's' && "sint32"@[1] == 'i'
            && "sint32"@[2] == 'n' && "sint32"@[3] == 't' && "sint32"@[4] == '3'
            && "sint32"@[5] == '2',
        "uint32"@.len() == 6 && "uint32"@[0] == 'u' && "uint32"@[1] == 'i'
            && "uint32"@[2] == 'n' && "uint32"@[3] == 't' && "uint32"@[4] == '3'
            && "uint32"@[5] == '2',
        "sint64"@.len() == 6 && "sint64"@[0] == 's' && "sint64"@[1] == 'i'
            && "sint64"@[2] == 'n' && "sint64"@[3] == 't' && "sint64"@[4] == '6'
            && "sint64"@[5] == '4',
        "uint64"@.len() == 6 && "uint64"@[0] == 'u' && "uint64"@[1] == 'i'
            && "uint64"@[2] == 'n' && "uint64"@[3] == 't' && "uint64"@[4] == '6'
            && "uint64"@[5] == '4',
        "usize"@.len() == 5 && "usize"@[0] == 'u' && "usize"@[1] == 's' && "usize"@[2] == 'i'
            && "usize"@[3] == 'z' && "usize"@[4] == 'e',
        "ssize"@.len() == 5 && "ssize"@[0] == 's' && "ssize"@[1] == 's' && "ssize"@[2] == 'i'
            && "ssize"@[3] == 'z' && "ssize"@[4] == 'e',
        "boolean"@.len() == 7 && "boolean"@[0] == 'b' && "boolean"@[1] == 'o'
            && "boolean"@[2] == 'o' && "boolean"@[3] == 'l' && "boolean"@[4] == 'e'
            && "boolean"@[5] == 'a' && "boolean"@[6] == 'n',
{
    reveal_strlit("{");
    reveal_strlit("}");
    reveal_strlit("class");
    reveal_strlit("function");
    reveal_strlit("method");
    reveal_strlit("variable");
    reveal_strlit("constant");
    reveal_strlit("public");
    reveal_strlit("private");
    reveal_strlit("+=");
    reveal_strlit("-=");
    reveal_strlit("/=");
    reveal_strlit("*=");
    reveal_strlit("->");
    reveal_strlit("==");
    reveal_strlit("*");
    reveal_strlit("+");
    reveal_strlit("/");
    reveal_strlit("-");
    reveal_strlit("=");
    reveal_strlit(":");
    reveal_strlit(">");
    reveal_strlit("<");
    reveal_strlit("(");
    reveal_strlit(")");
    reveal_strlit(";");
    reveal_strlit("sint8");
    reveal_strlit("uint8");
    reveal_strlit("sint16");
    reveal_strlit("uint16");
    reveal_strlit("sint32");
    reveal_strlit("uint32");
    reveal_strlit("sint64");
    reveal_strlit("uint64");
    reveal_strlit("usize");
    reveal_strlit("ssize");
    reveal_strlit("boolean");
}

/// `line` without its leading whitespace.
pub open spec fn trim_start(line: Seq<char>) -> Seq<char>
    decreases line.len(),
{
    if line.len() > 0 && is_whitespace(line[0]) {
        trim_start(line.drop_first())
    } else {
        line
    }
}

/// `line` without its trailing whitespace.
pub open spec fn trim_end(line: Seq<char>) -> Seq<char>
    decreases line.len(),
{
    if line.len() > 0 && is_whitespace(line.last()) {
        trim_end(line.drop_last())
    } else {
        line
    }
}

/// `line` without the whitespace that surrounds it.
pub open spec fn trim(line: Seq<char>) -> Seq<char> {
    trim_end(trim_start(line))
}

/// A line is blank when it holds nothing but whitespace.
pub open spec fn is_blank(line: Seq<char>) -> bool {
    forall|i: int| 0 <= i < line.len() ==> is_whitespace(#[trigger] line[i])
}

/// A line is a comment when the first thing on it is the comment marker.
pub open spec fn is_comment(line: Seq<char>) -> bool {
    trim(line).len() > 0 && trim(line)[0] == COMMENT_MARKER
}

/// Trimming takes whitespace from both ends and nothing else: what is left is
/// a stretch of the line that neither starts nor ends with whitespace, and
/// everything outside it is whitespace.
pub proof fn lemma_trim_is_subrange(line: Seq<char>) -> (bounds: (int, int))
    ensures
        0 <= bounds.0 <= bounds.1 <= line.len(),
        trim(line) == line.subrange(bounds.0, bounds.1),
        forall|i: int| 0 <= i < bounds.0 ==> is_whitespace(#[trigger] line[i]),
        forall|i: int| bounds.1 <= i < line.len() ==> is_whitespace(#[trigger] line[i]),
        bounds.0 < bounds.1 ==> !is_whitespace(line[bounds.0]) && !is_whitespace(
            line[bounds.1 - 1],
        ),
{
    let lo = lemma_trim_start_bound(line);
    let rest = line.subrange(lo, line.len() as int);
    let len = lemma_trim_end_bound(rest);
    assert forall|i: int| lo + len <= i < line.len() implies is_whitespace(#[trigger] line[i]) by {
        assert(line[i] == rest[i - lo]);
    }
    (lo, lo + len)
}

proof fn lemma_trim_start_bound(line: Seq<char>) -> (lo: int)
    ensures
        0 <= lo <= line.len(),
        trim_start(line) == line.subrange(lo, line.len() as int),
        forall|i: int| 0 <= i < lo ==> is_whitespace(#[trigger] line[i]),
        lo < line.len() ==> !is_whitespace(line[lo]),
    decreases line.len(),
{
    if line.len() > 0 && is_whitespace(line[0]) {
        let rest = line.drop_first();
        let k = lemma_trim_start_bound(rest);
        assert forall|i: int| 0 <= i < k + 1 implies is_whitespace(#[trigger] line[i]) by {
            if i > 0 {
                assert(line[i] == rest[i - 1]);
            }
        }
        k + 1
    } else {
        0
    }
}

proof fn lemma_trim_end_bound(line: Seq<char>) -> (hi: int)
    ensures
        0 <= hi <= line.len(),
        trim_end(line) == line.subrange(0, hi),
        forall|i: int| hi <= i < line.len() ==> is_whitespace(#[trigger] line[i]),
        hi > 0 ==> !is_whitespace(line[hi - 1]),
    decreases line.len(),
{
    if line.len() > 0 && is_whitespace(line.last()) {
        let rest = line.drop_last();
        let k = lemma_trim_end_bound(rest);
        assert forall|i: int| k <= i < line.len() implies is_whitespace(#[trigger] line[i]) by {
            if i < rest.len() {
                assert(line[i] == rest[i]);
            }
        }
        k
    } else {
        line.len() as int
    }
}

/// Trimming changes nothing in a text that neither starts nor ends with
/// whitespace.
pub proof fn lemma_trim_leaves_trimmed(line: Seq<char>)
    requires
        line.len() > 0 ==> !is_whitespace(line[0]) && !is_whitespace(line.last()),
    ensures
        trim(line) == line,
{
}

/// Nothing is left of a blank line once it is trimmed.
pub proof fn lemma_trim_blank(line: Seq<char>)
    requires
        is_blank(line),
    ensures
        trim(line).len() == 0,
{
    lemma_trim_is_subrange(line);
}

} // verus!
