//! The grammar of numeric literals.
//!
//! An integer literal is an optional sign followed by one or more decimal
//! digits. A floating-point literal has a decimal point with a digit on at
//! least one side of it, an optional sign in front and an optional exponent
//! behind. Whether a word is a literal is decided by its shape alone: no
//! literal is refused for being too large.

use vstd::prelude::*;
use vstd::slice::slice_subrange;

verus! {

/// The decimal digits `0` to `9`.
pub open spec fn is_digit(c: char) -> bool {
    '0' <= c <= '9'
}

/// The signs `+` and `-`.
pub open spec fn is_sign(c: char) -> bool {
    c == '+' || c == '-'
}

/// Whether `word` holds decimal digits and nothing else.
pub open spec fn all_digits(word: Seq<char>) -> bool {
    forall|i: int| 0 <= i < word.len() ==> is_digit(#[trigger] word[i])
}

/// How many characters the optional leading sign of `word` takes: one or none.
pub open spec fn sign_len(word: Seq<char>) -> int {
    if word.len() > 0 && is_sign(word[0]) {
        1
    } else {
        0
    }
}

/// An optional sign followed by at least one digit.
pub open spec fn is_integer_literal(word: Seq<char>) -> bool {
    sign_len(word) < word.len() && all_digits(word.subrange(sign_len(word), word.len() as int))
}

/// The letter `e`, in either case, followed by an integer literal.
pub open spec fn is_exponent(word: Seq<char>) -> bool {
    word.len() > 0 && (word[0] == 'e' || word[0] == 'E') && is_integer_literal(word.drop_first())
}

/// `word` reads as a floating-point literal whose decimal point stands at
/// index `point` and whose fraction ends before index `end`.
pub open spec fn has_float_shape(word: Seq<char>, point: int, end: int) -> bool {
    &&& sign_len(word) <= point < end <= word.len()
    &&& word[point] == '.'
    &&& all_digits(word.subrange(sign_len(word), point))
    &&& all_digits(word.subrange(point + 1, end))
    &&& end - sign_len(word) >= 2
    &&& (end == word.len() || is_exponent(word.subrange(end, word.len() as int)))
}

/// An optional sign, digits around a decimal point with at least one digit
/// among them, and an optional exponent.
pub open spec fn is_float_literal(word: Seq<char>) -> bool {
    exists|point: int, end: int| has_float_shape(word, point, end)
}

/// The number that the digit `c` stands for.
pub open spec fn digit_value(c: char) -> int {
    c as int - '0' as int
}

/// The number that a run of digits stands for, read in base ten.
pub open spec fn digits_value(digits: Seq<char>) -> int
    decreases digits.len(),
{
    if digits.len() == 0 {
        0
    } else {
        digits_value(digits.drop_last()) * 10 + digit_value(digits.last())
    }
}

/// The number that an integer literal stands for.
pub open spec fn integer_value(word: Seq<char>) -> int {
    let magnitude = digits_value(word.subrange(sign_len(word), word.len() as int));
    if word.len() > 0 && word[0] == '-' {
        -magnitude
    } else {
        magnitude
    }
}

/// Whether `c` is a decimal digit.
pub fn digit(c: char) -> (yes: bool)
    ensures
        yes == is_digit(c),
{
    '0' <= c && c <= '9'
}

/// The end of the run of digits that starts at `from`.
fn digits_end(word: &[char], from: usize) -> (end: usize)
    requires
        from <= word.len(),
    ensures
        from <= end <= word.len(),
        all_digits(word@.subrange(from as int, end as int)),
        end < word.len() ==> !is_digit(word[end as int]),
{
    let mut end = from;
    while end < word.len() && digit(word[end])
        invariant
            from <= end <= word.len(),
            all_digits(word@.subrange(from as int, end as int)),
        decreases word.len() - end,
    {
        assert forall|i: int| 0 <= i < end + 1 - from implies is_digit(
            #[trigger] word@.subrange(from as int, end + 1)[i],
        ) by {
            if i < end - from {
                assert(word@.subrange(from as int, end as int)[i] == word@[from + i]);
            }
        }
        end += 1;
    }
    end
}

/// How many characters the optional leading sign takes.
fn sign_end(word: &[char]) -> (end: usize)
    ensures
        end == sign_len(word@),
{
    if word.len() > 0 && (word[0] == '+' || word[0] == '-') {
        1
    } else {
        0
    }
}

/// A run of digits that stops at a character which is no digit, or at the end
/// of the word, is the longest such run: any other stretch of digits from the
/// same start that stops in the same way has the same end.
proof fn lemma_digit_run_unique(word: Seq<char>, from: int, a: int, b: int)
    requires
        0 <= from <= a <= word.len(),
        from <= b <= word.len(),
        all_digits(word.subrange(from, a)),
        all_digits(word.subrange(from, b)),
        a < word.len() ==> !is_digit(word[a]),
        b < word.len() ==> !is_digit(word[b]),
    ensures
        a == b,
{
    if a < b {
        assert(word.subrange(from, b)[a - from] == word[a]);
    }
    if b < a {
        assert(word.subrange(from, a)[b - from] == word[b]);
    }
}

/// Whether `word` is an integer literal.
pub fn integer_literal(word: &[char]) -> (yes: bool)
    ensures
        yes == is_integer_literal(word@),
{
    let start = sign_end(word);
    let end = digits_end(word, start);
    proof {
        if end < word.len() {
            assert(word@.subrange(start as int, word.len() as int)[end - start]
                == word@[end as int]);
        }
    }
    start < end && end == word.len()
}

/// Whether `word` is a floating-point literal.
pub fn float_literal(word: &[char]) -> (yes: bool)
    ensures
        yes == is_float_literal(word@),
{
    let n = word.len();
    let start = sign_end(word);
    let point = digits_end(word, start);
    if point >= n || word[point] != '.' {
        assert forall|p: int, e: int| !has_float_shape(word@, p, e) by {
            if has_float_shape(word@, p, e) {
                lemma_digit_run_unique(word@, start as int, point as int, p);
            }
        }
        return false;
    }
    let end = digits_end(word, point + 1);
    let exponent = if end == n {
        true
    } else if word[end] == 'e' || word[end] == 'E' {
        let tail = slice_subrange(word, end + 1, n);
        assert(word@.subrange(end as int, n as int).drop_first() == tail@);
        integer_literal(tail)
    } else {
        false
    };
    proof {
        assert forall|p: int, e: int| has_float_shape(word@, p, e) implies p == point && e
            == end by {
            lemma_digit_run_unique(word@, start as int, point as int, p);
            lemma_digit_run_unique(word@, point + 1, end as int, e);
        }
    }
    let yes = end - start >= 2 && exponent;
    proof {
        if yes {
            assert(has_float_shape(word@, point as int, end as int));
        }
    }
    yes
}

/// Appending a digit to a run of digits never makes its value smaller.
proof fn lemma_digits_value_grows(digits: Seq<char>, k: int)
    requires
        all_digits(digits),
        0 <= k <= digits.len(),
    ensures
        0 <= digits_value(digits.take(k)) <= digits_value(digits),
    decreases digits.len() - k,
{
    if k == digits.len() {
        assert(digits.take(k) == digits);
        lemma_digits_value_nonnegative(digits);
    } else {
        lemma_digits_value_grows(digits, k + 1);
        assert(digits.take(k + 1).drop_last() == digits.take(k));
        lemma_digits_value_nonnegative(digits.take(k));
    }
}

proof fn lemma_digits_value_nonnegative(digits: Seq<char>)
    requires
        all_digits(digits),
    ensures
        0 <= digits_value(digits),
    decreases digits.len(),
{
    if digits.len() > 0 {
        lemma_digits_value_nonnegative(digits.drop_last());
    }
}

/// The value of an integer literal, where it fits the machine's signed word.
///
/// Returns `None` for a word that is no integer literal and for a literal
/// whose value lies outside the range of `isize`.
pub fn parse_integer(word: &[char]) -> (value: Option<isize>)
    ensures
        match value {
            Some(v) => is_integer_literal(word@) && v == integer_value(word@),
            None => !is_integer_literal(word@) || !(isize::MIN <= integer_value(word@)
                <= isize::MAX),
        },
{
    if !integer_literal(word) {
        return None;
    }
    let n = word.len();
    let start = sign_end(word);
    let negative = word[0] == '-';
    let ghost digits = word@.subrange(start as int, n as int);
    // The value is gathered below zero, where the range reaches one further.
    let mut below: isize = 0;
    let mut i = start;
    while i < n
        invariant
            start <= i <= n == word.len(),
            start == sign_len(word@),
            digits == word@.subrange(start as int, n as int),
            all_digits(digits),
            below == -digits_value(digits.take(i - start)),
        decreases n - i,
    {
        let c = word[i];
        proof {
            assert(digits.take(i + 1 - start).drop_last() == digits.take(i - start));
            lemma_digits_value_grows(digits, i + 1 - start);
        }
        let d: isize = (c as u32 - '0' as u32) as isize;
        let next = match below.checked_mul(10) {
            Some(tenfold) => tenfold.checked_sub(d),
            None => None,
        };
        match next {
            Some(v) => {
                below = v;
            },
            None => {
                // What was read already lies outside the range, and further
                // digits only lead further from it.
                return None;
            },
        }
        i += 1;
    }
    assert(digits.take(n - start) == digits);
    if negative {
        Some(below)
    } else if below == isize::MIN {
        None
    } else {
        Some(-below)
    }
}

} // verus!
