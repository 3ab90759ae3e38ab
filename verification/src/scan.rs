//! What tokenizing means: how a line falls apart into lexemes.
//!
//! A line is trimmed and, unless it is a comment, read from left to right.
//! Characters gather in a pending lexeme until a separator ends it; an
//! operator character may instead join the pending lexeme when it can still
//! become part of a compound operator. A line that ends while a lexeme is
//! pending is malformed.

use vstd::prelude::*;
use crate::alphabet::{
    COMMENT_MARKER,
    is_compound_operator_prefix,
    is_operator_char,
    is_separator,
    is_whitespace,
    trim,
};

verus! {

/// Whether the operator character `current` is kept in the pending lexeme
/// rather than ending it.
///
/// It is kept when the character after it, `peeked`, is an operator
/// character too, and otherwise when the pending lexeme followed by
/// `current` is the beginning of some compound operator. A character that is
/// no operator is never kept.
pub open spec fn reveals_compound(current: char, peeked: Option<char>, pending: Seq<char>) -> bool {
    if !is_operator_char(current) || is_whitespace(current) {
        false
    } else if peeked is Some && is_operator_char(peeked->0) {
        true
    } else {
        is_compound_operator_prefix(trim(pending.push(current)))
    }
}

/// The state of a scan part of the way through a line.
pub struct Scan {
    /// The lexemes that are complete, in the order in which they were read.
    pub lexemes: Seq<Seq<char>>,
    /// The lexeme that is being accumulated.
    pub pending: Seq<char>,
    /// Whether a comment has begun, so that the rest of the line is ignored.
    pub finished: bool,
}

impl Scan {
    /// The state before anything is read.
    pub open spec fn start() -> Scan {
        Scan { lexemes: Seq::empty(), pending: Seq::empty(), finished: false }
    }

    /// The state after reading `current`, which `peeked` follows on the line.
    pub open spec fn step(self, current: char, peeked: Option<char>) -> Scan {
        if self.finished {
            self
        } else if !is_separator(current) || reveals_compound(current, peeked, self.pending) {
            Scan { pending: self.pending.push(current), ..self }
        } else if self.pending == seq![COMMENT_MARKER] {
            Scan { lexemes: self.lexemes, pending: Seq::empty(), finished: true }
        } else {
            let flushed = if self.pending.len() > 0 {
                self.lexemes.push(self.pending)
            } else {
                self.lexemes
            };
            let emitted = if is_whitespace(current) {
                flushed
            } else {
                flushed.push(seq![current])
            };
            Scan { lexemes: emitted, pending: Seq::empty(), finished: false }
        }
    }
}

/// The character that follows index `i` on the line, if there is one.
pub open spec fn peek(line: Seq<char>, i: int) -> Option<char> {
    if i + 1 < line.len() {
        Some(line[i + 1])
    } else {
        None
    }
}

/// The state of the scan after the first `n` characters of `line`.
pub open spec fn scan(line: Seq<char>, n: int) -> Scan
    decreases n,
{
    if n <= 0 {
        Scan::start()
    } else {
        scan(line, n - 1).step(line[n - 1], peek(line, n - 1))
    }
}

/// What lexing comes to.
pub enum Lexing {
    /// The lexemes that were read, in order.
    Lexemes(Seq<Seq<char>>),
    /// The line that is malformed, without the whitespace around it.
    Malformed(Seq<char>),
}

/// The lexemes of one line, or the trimmed line itself where it is malformed.
///
/// A blank line and a comment line have no lexemes. Any other line is
/// malformed when it ends while a lexeme is still pending.
pub open spec fn lex_line(line: Seq<char>) -> Lexing {
    let text = trim(line);
    if text.len() > 0 && text[0] == COMMENT_MARKER {
        Lexing::Lexemes(Seq::empty())
    } else {
        let end = scan(text, text.len() as int);
        if end.pending.len() == 0 {
            Lexing::Lexemes(end.lexemes)
        } else {
            Lexing::Malformed(text)
        }
    }
}

/// The lexemes of a run of lines, in order, or the first malformed line,
/// trimmed. Nothing is kept of the lines before a malformed one.
pub open spec fn lex_lines(lines: Seq<Seq<char>>) -> Lexing
    decreases lines.len(),
{
    if lines.len() == 0 {
        Lexing::Lexemes(Seq::empty())
    } else {
        match lex_lines(lines.drop_last()) {
            Lexing::Malformed(culprit) => Lexing::Malformed(culprit),
            Lexing::Lexemes(before) => match lex_line(lines.last()) {
                Lexing::Malformed(culprit) => Lexing::Malformed(culprit),
                Lexing::Lexemes(lexemes) => Lexing::Lexemes(before + lexemes),
            },
        }
    }
}

/// Once a comment has begun nothing more is read: the state stays as it is
/// to the end of the line.
pub proof fn lemma_scan_finished(line: Seq<char>, m: int, n: int)
    requires
        0 <= m <= n,
        scan(line, m).finished,
    ensures
        scan(line, n) == scan(line, m),
    decreases n - m,
{
    if m < n {
        lemma_scan_finished(line, m, n - 1);
    }
}

/// A malformed line fails every run of lines that it is part of: where the
/// first `n` lines fail, all the lines fail, and with the same line.
pub proof fn lemma_lex_lines_fails_for_good(lines: Seq<Seq<char>>, n: int)
    requires
        0 <= n <= lines.len(),
        lex_lines(lines.take(n)) is Malformed,
    ensures
        lex_lines(lines) == lex_lines(lines.take(n)),
    decreases lines.len() - n,
{
    if n < lines.len() {
        assert(lines.take(n + 1).drop_last() == lines.take(n));
        lemma_lex_lines_fails_for_good(lines, n + 1);
    } else {
        assert(lines.take(n) == lines);
    }
}

} // verus!
