//! Moving between strings and the character sequences that the lexer works on.

use vstd::prelude::*;
use vstd::std_specs::iter::IteratorSpec;
use crate::alphabet::{is_whitespace, trim, trim_start, trim_end};

verus! {

/// `String::push` of the standard library appends the character to the end
/// of the string and leaves what the string held before as it was. This is
/// what its documentation says; it is taken on trust and not proved here.
pub assume_specification[ String::push ](s: &mut String, c: char)
    ensures
        final(s)@ == old(s)@.push(c),
;

/// The characters of `s`, in order.
pub fn chars_of(s: &str) -> (chars: Vec<char>)
    ensures
        chars@ == s@,
{
    let mut chars: Vec<char> = Vec::new();
    for c in it: s.chars()
        invariant
            it.seq() == s@,
            chars@ == it.seq().take(it.index()),
    {
        chars.push(c);
    }
    chars
}

/// The string that is spelled by `chars`.
pub fn string_of(chars: &[char]) -> (s: String)
    ensures
        s@ == chars@,
{
    let mut s = String::new();
    let mut i: usize = 0;
    while i < chars.len()
        invariant
            i <= chars.len(),
            s@ == chars@.take(i as int),
        decreases chars.len() - i,
    {
        s.push(chars[i]);
        i += 1;
    }
    s
}

/// Whether `a` and `b` hold the same characters.
pub fn same_text(a: &str, b: &str) -> (same: bool)
    ensures
        same == (a@ == b@),
{
    let mut rest = a.chars();
    let ghost mut i: int = 0;
    for c in it: b.chars()
        invariant
            it.seq() == b@,
            i == it.index(),
            i <= a@.len(),
            rest.remaining() == a@.skip(i),
            a@.take(i) == b@.take(i),
    {
        match rest.next() {
            Some(d) => {
                if c != d {
                    return false;
                }
                proof {
                    i = i + 1;
                }
            },
            None => {
                return false;
            },
        }
    }
    let last = rest.next();
    assert(b@.take(i) == b@);
    last.is_none()
}

/// The character that `word` consists of, if it consists of exactly one.
pub fn single_char(word: &str) -> (only: Option<char>)
    ensures
        match only {
            Some(c) => word@ == seq![c],
            None => word@.len() != 1,
        },
{
    let mut rest = word.chars();
    let first = rest.next();
    let second = rest.next();
    match (first, second) {
        (Some(c), None) => Some(c),
        _ => None,
    }
}

/// Whether `chars` is the beginning of the string `s`.
pub fn begins(chars: &[char], s: &str) -> (prefix: bool)
    ensures
        prefix == chars@.is_prefix_of(s@),
{
    let mut i: usize = 0;
    for c in it: s.chars()
        invariant
            it.seq() == s@,
            i <= it.index(),
            i <= chars.len(),
            i < chars.len() ==> i == it.index(),
            chars@.take(i as int) == s@.take(i as int),
    {
        if i < chars.len() {
            if chars[i] != c {
                return false;
            }
            i += 1;
        }
    }
    if i == chars.len() {
        true
    } else {
        false
    }
}

/// Whether `c` is whitespace.
pub fn whitespace(c: char) -> (yes: bool)
    ensures
        yes == is_whitespace(c),
{
    ('\u{9}' <= c && c <= '\u{d}') || c == ' ' || c == '\u{85}' || c == '\u{a0}' || c
        == '\u{1680}' || ('\u{2000}' <= c && c <= '\u{200a}') || c == '\u{2028}' || c
        == '\u{2029}' || c == '\u{202f}' || c == '\u{205f}' || c == '\u{3000}'
}

/// Where the trimmed line lies within `line`: it runs from the first index
/// returned up to, and not including, the second.
pub fn trim_bounds(line: &[char]) -> (bounds: (usize, usize))
    ensures
        bounds.0 <= bounds.1 <= line.len(),
        line@.subrange(bounds.0 as int, bounds.1 as int) == trim(line@),
{
    let n = line.len();
    let mut lo: usize = 0;
    assert(line@.subrange(0, n as int) == line@);
    while lo < n && whitespace(line[lo])
        invariant
            lo <= n == line.len(),
            trim_start(line@) == trim_start(line@.subrange(lo as int, n as int)),
        decreases n - lo,
    {
        assert(line@.subrange(lo as int, n as int).drop_first() == line@.subrange(
            lo + 1,
            n as int,
        ));
        lo += 1;
    }
    let mut hi: usize = n;
    while lo < hi && whitespace(line[hi - 1])
        invariant
            lo <= hi <= n == line.len(),
            trim_start(line@) == line@.subrange(lo as int, n as int),
            trim(line@) == trim_end(line@.subrange(lo as int, hi as int)),
        decreases hi - lo,
    {
        assert(line@.subrange(lo as int, hi as int).drop_last() == line@.subrange(
            lo as int,
            hi - 1,
        ));
        hi -= 1;
    }
    (lo, hi)
}

} // verus!
