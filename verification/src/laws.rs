//! What holds of every line and every run of lines.
//!
//! The scan is defined one character at a time. The statements here say what
//! that definition comes to: which lines are well formed and which are
//! malformed, that no character is lost or invented, and that a compound
//! operator is never cut in two.

use vstd::prelude::*;
use crate::alphabet::{
    COMMENT_MARKER,
    is_blank,
    is_comment,
    is_compound_operator,
    is_grouping_char,
    is_operator_char,
    is_punctuation_char,
    is_scope_char,
    is_separator,
    is_whitespace,
    lemma_reserved_words,
    lemma_trim_blank,
    lemma_trim_is_subrange,
    lemma_trim_leaves_trimmed,
    trim,
};
use crate::scan::{
    Lexing,
    Scan,
    lemma_lex_lines_fails_for_good,
    lemma_scan_finished,
    lex_line,
    lex_lines,
    reveals_compound,
    scan,
};

verus! {

/// Whether a comment begins somewhere on the line: at its start, or further
/// on with a lexeme that is exactly the comment marker.
pub open spec fn has_comment(line: Seq<char>) -> bool {
    is_comment(line) || scan(trim(line), trim(line).len() as int).finished
}

/// Whether `c` closes a statement or a group: the terminator `;`, a brace or
/// a parenthesis. No lexeme is pending after such a character.
pub open spec fn is_closing_char(c: char) -> bool {
    is_punctuation_char(c) || is_scope_char(c) || is_grouping_char(c)
}

/// Whether the last character of `text` joins the pending lexeme instead of
/// ending it: it is no separator, or it is an operator that may still become
/// part of a compound operator.
pub open spec fn ends_open(text: Seq<char>) -> bool {
    text.len() > 0 && (!is_separator(text.last()) || reveals_compound(
        text.last(),
        None,
        scan(text, text.len() - 1).pending,
    ))
}

/// A lexeme is solid when it holds at least one character and no whitespace.
pub open spec fn is_solid(word: Seq<char>) -> bool {
    word.len() > 0 && forall|i: int| 0 <= i < word.len() ==> !is_whitespace(#[trigger] word[i])
}

/// The characters of `line` that are no whitespace, in order.
pub open spec fn without_whitespace(line: Seq<char>) -> Seq<char> {
    line.filter(|c: char| !is_whitespace(c))
}

/// Where a comment has begun no lexeme is pending.
pub proof fn lemma_scan_finished_leaves_nothing_pending(line: Seq<char>, n: int)
    requires
        scan(line, n).finished,
    ensures
        scan(line, n).pending.len() == 0,
    decreases n,
{
    if n > 0 && scan(line, n - 1).finished {
        lemma_scan_finished_leaves_nothing_pending(line, n - 1);
    }
}

/// While the comment marker has not been read no comment has begun, and no
/// pending lexeme holds the marker.
proof fn lemma_scan_without_marker(line: Seq<char>, n: int)
    requires
        0 <= n <= line.len(),
        forall|i: int| 0 <= i < line.len() ==> line[i] != COMMENT_MARKER,
    ensures
        !scan(line, n).finished,
        forall|j: int|
            0 <= j < scan(line, n).pending.len() ==> scan(line, n).pending[j] != COMMENT_MARKER,
    decreases n,
{
    if n > 0 {
        lemma_scan_without_marker(line, n - 1);
        let before = scan(line, n - 1);
        if before.pending == seq![COMMENT_MARKER] {
            assert(before.pending[0] == COMMENT_MARKER);
        }
    }
}

/// A line on which the comment marker does not occur has no comment.
pub proof fn lemma_no_marker_no_comment(line: Seq<char>)
    requires
        forall|i: int| 0 <= i < line.len() ==> line[i] != COMMENT_MARKER,
    ensures
        !has_comment(line),
{
    lemma_trim_is_subrange(line);
    lemma_scan_without_marker(trim(line), trim(line).len() as int);
}

/// Every lexeme that a scan completes is solid, and no whitespace is ever
/// pending.
pub proof fn lemma_scan_lexemes_are_solid(line: Seq<char>, n: int)
    requires
        0 <= n <= line.len(),
    ensures
        forall|k: int|
            0 <= k < scan(line, n).lexemes.len() ==> is_solid(#[trigger] scan(line, n).lexemes[k]),
        forall|j: int|
            0 <= j < scan(line, n).pending.len() ==> !is_whitespace(
                #[trigger] scan(line, n).pending[j],
            ),
    decreases n,
{
    if n > 0 {
        lemma_scan_lexemes_are_solid(line, n - 1);
        let before = scan(line, n - 1);
        let after = scan(line, n);
        assert forall|k: int| 0 <= k < after.lexemes.len() implies is_solid(
            #[trigger] after.lexemes[k],
        ) by {
            if k < before.lexemes.len() {
                assert(after.lexemes[k] == before.lexemes[k]);
            }
        }
    }
}

/// Cutting a line into lexemes neither loses nor invents a character: as
/// long as no comment has begun, the completed lexemes followed by the
/// pending one spell what was read, whitespace left out.
pub proof fn lemma_scan_keeps_every_character(line: Seq<char>, n: int)
    requires
        0 <= n <= line.len(),
        !scan(line, n).finished,
    ensures
        scan(line, n).lexemes.flatten() + scan(line, n).pending == without_whitespace(
            line.take(n),
        ),
    decreases n,
{
    let solid = |c: char| !is_whitespace(c);
    if n == 0 {
        Seq::<char>::empty().lemma_filter_len(solid);
    } else {
        let before = scan(line, n - 1);
        let current = line[n - 1];
        lemma_scan_keeps_every_character(line, n - 1);
        assert(line.take(n) == line.take(n - 1).push(current));
        line.take(n - 1).lemma_filter_push(current, solid);
        // Where the pending lexeme is flushed, it moves behind the complete
        // ones, and the separator follows it unless it is whitespace.
        let flushed = if before.pending.len() > 0 {
            before.lexemes.push(before.pending)
        } else {
            before.lexemes
        };
        before.lexemes.lemma_flatten_push(before.pending);
        flushed.lemma_flatten_push(seq![current]);
    }
}

/// The lexemes of a well-formed line are all solid. Where the line has no
/// comment they spell, one after the other, the whole trimmed line with
/// its whitespace left out.
pub proof fn lemma_lexemes_spell_the_line(line: Seq<char>)
    requires
        lex_line(line) is Lexemes,
    ensures
        forall|k: int|
            0 <= k < lex_line(line)->Lexemes_0.len() ==> is_solid(
                #[trigger] lex_line(line)->Lexemes_0[k],
            ),
        !has_comment(line) ==> lex_line(line)->Lexemes_0.flatten() == without_whitespace(
            trim(line),
        ),
{
    let text = trim(line);
    let n = text.len() as int;
    if !is_comment(line) {
        lemma_scan_lexemes_are_solid(text, n);
        if !has_comment(line) {
            lemma_scan_keeps_every_character(text, n);
            assert(text.take(n) == text);
        }
    }
}

/// A compound operator is gathered whole. Where no lexeme is pending and the
/// next two characters spell a compound operator that no further operator
/// character follows, both join the pending lexeme, which is then that
/// operator: it is never cut into two operators of one character.
pub proof fn lemma_compound_operator_stays_whole(line: Seq<char>, i: int)
    requires
        0 <= i,
        i + 2 <= line.len(),
        is_compound_operator(line.subrange(i, i + 2)),
        !scan(line, i).finished,
        scan(line, i).pending.len() == 0,
        i + 2 < line.len() ==> !is_operator_char(line[i + 2]),
    ensures
        scan(line, i + 2) == (Scan { pending: line.subrange(i, i + 2), ..scan(line, i) }),
{
    lemma_reserved_words();
    let operator = line.subrange(i, i + 2);
    assert(scan(line, i + 1).pending.push(line[i + 1]) == operator);
    lemma_trim_leaves_trimmed(operator);
}

/// A run of well-formed lines is well formed, and its lexemes are those of
/// its lines, one line after the other.
pub proof fn lemma_lex_lines_of_well_formed_lines(lines: Seq<Seq<char>>)
    requires
        forall|i: int| 0 <= i < lines.len() ==> lex_line(#[trigger] lines[i]) is Lexemes,
    ensures
        lex_lines(lines) == Lexing::Lexemes(
            lines.map_values(|line: Seq<char>| lex_line(line)->Lexemes_0).flatten(),
        ),
    decreases lines.len(),
{
    let lexemes_of = |line: Seq<char>| lex_line(line)->Lexemes_0;
    if lines.len() > 0 {
        let before = lines.drop_last();
        lemma_lex_lines_of_well_formed_lines(before);
        assert(lines.map_values(lexemes_of) == before.map_values(lexemes_of).push(
            lexemes_of(lines.last()),
        ));
        before.map_values(lexemes_of).lemma_flatten_push(lexemes_of(lines.last()));
    }
}

/// A run of lines fails with its first malformed line.
pub proof fn lemma_lex_lines_first_failure(lines: Seq<Seq<char>>, i: int)
    requires
        0 <= i < lines.len(),
        lex_line(lines[i]) is Malformed,
        forall|j: int| 0 <= j < i ==> lex_line(#[trigger] lines[j]) is Lexemes,
    ensures
        lex_lines(lines) == Lexing::Malformed(trim(lines[i])),
{
    lemma_lex_lines_of_well_formed_lines(lines.take(i));
    assert(lines.take(i + 1).drop_last() == lines.take(i));
    lemma_lex_lines_fails_for_good(lines, i + 1);
}

/// A blank line and a comment line have no lexemes.
pub proof fn lemma_blank_or_comment_line(line: Seq<char>)
    requires
        is_blank(line) || is_comment(line),
    ensures
        lex_line(line) == Lexing::Lexemes(Seq::empty()),
{
    if !is_comment(line) {
        lemma_trim_blank(line);
    }
}

/// A run of lines that are all blank or comments has no lexemes, so that
/// tokenizing it yields no token.
pub proof fn lemma_blank_and_comment_lines(lines: Seq<Seq<char>>)
    requires
        forall|i: int|
            0 <= i < lines.len() ==> is_blank(#[trigger] lines[i]) || is_comment(lines[i]),
    ensures
        lex_lines(lines) == Lexing::Lexemes(Seq::empty()),
    decreases lines.len(),
{
    if lines.len() > 0 {
        lemma_blank_and_comment_lines(lines.drop_last());
        lemma_blank_or_comment_line(lines.last());
    }
}

/// A line whose last character, whitespace aside, is the statement
/// terminator is well formed; so is one that ends in a brace or a
/// parenthesis.
pub proof fn lemma_closed_line_succeeds(line: Seq<char>)
    requires
        trim(line).len() > 0,
        is_closing_char(trim(line).last()),
    ensures
        lex_line(line) is Lexemes,
{
    let text = trim(line);
    let n = text.len() as int;
    if scan(text, n - 1).finished {
        lemma_scan_finished(text, n - 1, n);
        lemma_scan_finished_leaves_nothing_pending(text, n - 1);
    }
}

/// A line without a comment whose last character, whitespace aside, is left
/// pending is malformed, and the failure names the line as trimmed. This is
/// so in particular where that character is no separator.
pub proof fn lemma_open_line_fails(line: Seq<char>)
    requires
        ends_open(trim(line)),
        !has_comment(line),
    ensures
        lex_line(line) == Lexing::Malformed(trim(line)),
{
    let text = trim(line);
    let n = text.len() as int;
    if scan(text, n - 1).finished {
        lemma_scan_finished(text, n - 1, n);
    }
}

/// Only such lines are malformed: a line that fails has no comment and its
/// last character is left pending.
pub proof fn lemma_malformed_line_is_open(line: Seq<char>)
    requires
        lex_line(line) is Malformed,
    ensures
        ends_open(trim(line)),
        !has_comment(line),
        lex_line(line) == Lexing::Malformed(trim(line)),
{
    let text = trim(line);
    let n = text.len() as int;
    if scan(text, n).finished {
        lemma_scan_finished_leaves_nothing_pending(text, n);
    }
}

} // verus!
