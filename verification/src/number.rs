//! Numbers in text: the atom count of a file and the form of a coordinate.

use vstd::prelude::*;
use crate::text::{lemma_run_len_is, run_len};

verus! {

/// Whether a character is a decimal digit.
pub open spec fn is_digit(c: char) -> bool {
    '0' <= c <= '9'
}

/// The decimal digits.
pub open spec fn digits() -> spec_fn(char) -> bool {
    |c: char| is_digit(c)
}

/// The value of a decimal digit.
pub open spec fn digit_value(c: char) -> nat {
    (c as u32 - '0' as u32) as nat
}

/// Whether `text` is one digit or more and nothing else.
pub open spec fn all_digits(text: Seq<char>) -> bool {
    text.len() > 0 && forall|i: int| 0 <= i < text.len() ==> is_digit(#[trigger] text[i])
}

/// The number that a row of digits writes.
pub open spec fn decimal_value(text: Seq<char>) -> nat
    decreases text.len(),
{
    if text.len() == 0 {
        0
    } else {
        decimal_value(text.drop_last()) * 10 + digit_value(text.last())
    }
}

/// `text` without the plus sign that may stand in front.
pub open spec fn without_plus(text: Seq<char>) -> Seq<char> {
    if text.len() > 0 && text[0] == '+' {
        text.drop_first()
    } else {
        text
    }
}

/// The count that `text` writes: digits, with or without a plus sign, whose
/// value a `usize` holds. Any other text writes none.
pub open spec fn count_of(text: Seq<char>) -> Option<usize> {
    let body = without_plus(text);
    if all_digits(body) && decimal_value(body) <= usize::MAX {
        Some(decimal_value(body) as usize)
    } else {
        None
    }
}

/// A row of digits is worth at least as much as any of its beginnings.
pub proof fn lemma_decimal_value_grows(text: Seq<char>, n: int)
    requires
        0 <= n <= text.len(),
    ensures
        decimal_value(text.take(n)) <= decimal_value(text),
    decreases text.len() - n,
{
    if n == text.len() {
        assert(text.take(n) =~= text);
    } else {
        assert(text.drop_last().take(n) =~= text.take(n));
        lemma_decimal_value_grows(text.drop_last(), n);
    }
}

/// Tells whether a character is a decimal digit.
pub fn digit(c: char) -> (yes: bool)
    ensures
        yes == is_digit(c),
{
    '0' <= c && c <= '9'
}

/// Reads a count: digits, with or without a plus sign in front.
pub fn parse_count(text: &Vec<char>) -> (count: Option<usize>)
    ensures
        count == count_of(text@),
{
    let start: usize = if text.len() > 0 && text[0] == '+' {
        1
    } else {
        0
    };
    let ghost body = without_plus(text@);
    assert(body =~= text@.skip(start as int));
    if start == text.len() {
        return None;
    }
    let mut value: usize = 0;
    let mut i: usize = start;
    while i < text.len()
        invariant
            start <= i <= text.len(),
            body == text@.skip(start as int),
            body == without_plus(text@),
            forall|k: int| 0 <= k < i - start ==> is_digit(#[trigger] body[k]),
            value == decimal_value(body.take(i - start)),
        decreases text.len() - i,
    {
        let c = text[i];
        assert(body[i - start] == c);
        if !digit(c) {
            assert(!is_digit(body[i - start]));
            return None;
        }
        let d: usize = (c as u32 - '0' as u32) as usize;
        proof {
            assert(body.take(i - start + 1).drop_last() =~= body.take(i - start));
            assert(body.take(i - start + 1).last() == c);
            lemma_decimal_value_grows(body, i - start + 1);
            assert(decimal_value(body.take(i - start + 1)) == value * 10 + d);
        }
        let next = match value.checked_mul(10) {
            Some(tens) => tens.checked_add(d),
            None => None,
        };
        match next {
            Some(n) => {
                value = n;
            },
            None => {
                return None;
            },
        }
        i += 1;
    }
    assert(body.take(body.len() as int) =~= body);
    Some(value)
}

/// The code of the lower-case form of an ASCII letter; of any other
/// character, its own code.
pub open spec fn lowered(c: char) -> u32 {
    if 'A' <= c <= 'Z' {
        (c as u32 + 32) as u32
    } else {
        c as u32
    }
}

/// Whether `text` is `word` but for the case of its letters.
pub open spec fn spells(text: Seq<char>, word: Seq<char>) -> bool {
    text.len() == word.len() && forall|i: int|
        0 <= i < text.len() ==> lowered(#[trigger] text[i]) == word[i] as u32
}

/// Whether `text` names an infinity or a value that is no number.
pub open spec fn is_special(text: Seq<char>) -> bool {
    ||| spells(text, seq!['i', 'n', 'f'])
    ||| spells(text, seq!['n', 'a', 'n'])
    ||| spells(text, seq!['i', 'n', 'f', 'i', 'n', 'i', 't', 'y'])
}

/// `text` without the sign that may stand in front.
pub open spec fn without_sign(text: Seq<char>) -> Seq<char> {
    if text.len() > 0 && (text[0] == '+' || text[0] == '-') {
        text.drop_first()
    } else {
        text
    }
}

/// Whether `text` is an exponent: `e` or `E`, a sign or none, then digits.
pub open spec fn is_exponent(text: Seq<char>) -> bool {
    text.len() > 0 && (text[0] == 'e' || text[0] == 'E') && all_digits(
        without_sign(text.drop_first()),
    )
}

/// Whether `text` is a decimal number without sign: digits with at most one
/// point among them, at least one digit in all, then an exponent or nothing.
pub open spec fn is_decimal(text: Seq<char>) -> bool {
    let whole = run_len(text, digits()) as int;
    let rest = text.skip(whole);
    let pointed = rest.len() > 0 && rest[0] == '.';
    let fraction = if pointed {
        run_len(rest.drop_first(), digits()) as int
    } else {
        0
    };
    let tail = if pointed {
        rest.skip(1 + fraction)
    } else {
        rest
    };
    whole + fraction > 0 && (tail.len() == 0 || is_exponent(tail))
}

/// Whether `text` writes a number in the form that `str::parse` takes for a
/// single-precision value: a sign or none, then a decimal number or one of the
/// words `inf`, `infinity` and `nan` in any case.
pub open spec fn is_number(text: Seq<char>) -> bool {
    is_special(without_sign(text)) || is_decimal(without_sign(text))
}

/// Tells whether the characters from `start` on are `word` but for case.
fn spells_from(text: &Vec<char>, start: usize, word: &Vec<char>) -> (yes: bool)
    requires
        start <= text.len(),
    ensures
        yes == spells(text@.skip(start as int), word@),
{
    let ghost body = text@.skip(start as int);
    if text.len() - start != word.len() {
        return false;
    }
    let mut i: usize = 0;
    while i < word.len()
        invariant
            i <= word.len(),
            start + word.len() == text.len(),
            body == text@.skip(start as int),
            forall|k: int| 0 <= k < i ==> lowered(#[trigger] body[k]) == word[k] as u32,
        decreases word.len() - i,
    {
        let c = text[start + i];
        assert(body[i as int] == c);
        let n: u32 = c as u32;
        let low: u32 = if 'A' <= c && c <= 'Z' {
            n + 32
        } else {
            n
        };
        if low != word[i] as u32 {
            return false;
        }
        i += 1;
    }
    true
}

/// The end of the run of digits that starts at `start`.
fn skip_digits(text: &Vec<char>, start: usize) -> (end: usize)
    requires
        start <= text.len(),
    ensures
        start <= end <= text.len(),
        end - start == run_len(text@.skip(start as int), digits()),
        forall|i: int| start <= i < end ==> is_digit(#[trigger] text[i]),
        end < text.len() ==> !is_digit(text[end as int]),
{
    let mut end: usize = start;
    while end < text.len() && digit(text[end])
        invariant
            start <= end <= text.len(),
            forall|i: int| start <= i < end ==> is_digit(#[trigger] text[i]),
        decreases text.len() - end,
    {
        end += 1;
    }
    proof {
        let body = text@.skip(start as int);
        assert forall|i: int| 0 <= i < end - start implies digits()(#[trigger] body[i]) by {
            assert(body[i] == text[i + start]);
        }
        if end - start < body.len() {
            assert(body[end - start] == text[end as int]);
        }
        lemma_run_len_is(body, digits(), end - start);
    }
    end
}

/// Tells whether the characters from `start` on are an exponent.
fn exponent_from(text: &Vec<char>, start: usize) -> (yes: bool)
    requires
        start < text.len(),
    ensures
        yes == is_exponent(text@.skip(start as int)),
{
    let ghost body = text@.skip(start as int);
    assert(body[0] == text[start as int]);
    if text[start] != 'e' && text[start] != 'E' {
        return false;
    }
    let after = start + 1;
    let from = if after < text.len() && (text[after] == '+' || text[after] == '-') {
        after + 1
    } else {
        after
    };
    let end = skip_digits(text, from);
    proof {
        let signed = body.drop_first();
        assert(signed =~= text@.skip(after as int));
        if after < text.len() {
            assert(signed[0] == text[after as int]);
        }
        let bare = without_sign(signed);
        assert(bare =~= text@.skip(from as int));
        if end == text.len() && end > from {
            assert forall|i: int| 0 <= i < bare.len() implies is_digit(#[trigger] bare[i]) by {
                assert(bare[i] == text[i + from]);
            }
        } else if end < text.len() {
            assert(bare[end - from] == text[end as int]);
        }
    }
    end == text.len() && end > from
}

/// Tells whether the characters from `start` on are a decimal number
/// without sign.
fn decimal_from(text: &Vec<char>, start: usize) -> (yes: bool)
    requires
        start <= text.len(),
    ensures
        yes == is_decimal(text@.skip(start as int)),
{
    let ghost body = text@.skip(start as int);
    let whole_end = skip_digits(text, start);
    let pointed = whole_end < text.len() && text[whole_end] == '.';
    let fraction_end = if pointed {
        skip_digits(text, whole_end + 1)
    } else {
        whole_end
    };
    proof {
        let rest = body.skip(whole_end - start);
        assert(rest =~= text@.skip(whole_end as int));
        if whole_end < text.len() {
            assert(rest[0] == text[whole_end as int]);
        }
        if pointed {
            assert(rest.drop_first() =~= text@.skip(whole_end + 1));
            assert(rest.skip(1 + (fraction_end - whole_end - 1)) =~= text@.skip(
                fraction_end as int,
            ));
        }
    }
    let counted = if pointed {
        fraction_end - 1 - start
    } else {
        whole_end - start
    };
    if counted == 0 {
        return false;
    }
    if fraction_end == text.len() {
        return true;
    }
    exponent_from(text, fraction_end)
}

/// Tells whether the characters from `start` on name an infinity or a value
/// that is no number.
fn special_from(text: &Vec<char>, start: usize) -> (yes: bool)
    requires
        start <= text.len(),
    ensures
        yes == is_special(text@.skip(start as int)),
{
    let inf: Vec<char> = vec!['i', 'n', 'f'];
    let nan: Vec<char> = vec!['n', 'a', 'n'];
    let infinity: Vec<char> = vec!['i', 'n', 'f', 'i', 'n', 'i', 't', 'y'];
    assert(inf@ =~= seq!['i', 'n', 'f']);
    assert(nan@ =~= seq!['n', 'a', 'n']);
    assert(infinity@ =~= seq!['i', 'n', 'f', 'i', 'n', 'i', 't', 'y']);
    spells_from(text, start, &inf) || spells_from(text, start, &nan) || spells_from(
        text,
        start,
        &infinity,
    )
}

/// Tells whether `text` writes a number in the form of a coordinate.
pub fn is_coordinate(text: &Vec<char>) -> (yes: bool)
    ensures
        yes == is_number(text@),
{
    let start: usize = if text.len() > 0 && (text[0] == '+' || text[0] == '-') {
        1
    } else {
        0
    };
    assert(without_sign(text@) =~= text@.skip(start as int));
    special_from(text, start) || decimal_from(text, start)
}

} // verus!
