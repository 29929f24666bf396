//! Reading the rollup height out of the sentence with which the rollup rejects
//! an assertion that came too late.
//!
//! The sentence is `Block state assertion failed at rollup height <N>.`: a fixed
//! marker, then the height in decimal digits, read up to the first character
//! that is no digit.

use crate::phrase::{
    chars_of, find_phrase, first_occurrence, lemma_first_occurrence_is_unique, occurs, occurs_at,
};
use vstd::prelude::*;

verus! {

/// The words that stand immediately before the height.
pub open spec fn height_marker() -> Seq<char> {
    "Block state assertion failed at rollup height "@
}

/// `c` is one of `0` to `9`.
pub open spec fn is_digit(c: char) -> bool {
    '0' <= c <= '9'
}

/// The number that the digit `c` stands for.
pub open spec fn digit_value(c: char) -> nat
    recommends
        is_digit(c),
{
    (c as nat - '0' as nat) as nat
}

/// Every character of `s` is a digit.
pub open spec fn all_digits(s: Seq<char>) -> bool {
    forall|i: int| 0 <= i < s.len() ==> is_digit(#[trigger] s[i])
}

/// How many digits `s` begins with.
pub open spec fn digit_run_len(s: Seq<char>) -> nat
    decreases s.len(),
{
    if s.len() > 0 && is_digit(s[0]) {
        1 + digit_run_len(s.drop_first())
    } else {
        0
    }
}

/// The digits that `s` begins with: everything before its first character that
/// is no digit.
pub open spec fn leading_digits(s: Seq<char>) -> Seq<char> {
    s.take(digit_run_len(s) as int)
}

/// The number that a sequence of decimal digits denotes; leading zeros count
/// for nothing and the empty sequence denotes zero.
pub open spec fn decimal_value(digits: Seq<char>) -> nat
    decreases digits.len(),
{
    if digits.len() == 0 {
        0
    } else {
        10 * decimal_value(digits.drop_last()) + digit_value(digits.last())
    }
}

/// The number that a run of digits denotes as a rollup height: none for an
/// empty run, none for a number that no `u64` holds.
pub open spec fn height_of_digits(digits: Seq<char>) -> Option<u64> {
    if digits.len() == 0 || decimal_value(digits) > u64::MAX {
        None
    } else {
        Some(decimal_value(digits) as u64)
    }
}

/// The height that the digits of `text` from position `start` on denote.
pub open spec fn height_from(text: Seq<char>, start: int) -> Option<u64> {
    if 0 <= start <= text.len() {
        height_of_digits(leading_digits(text.skip(start)))
    } else {
        None
    }
}

/// The height that a message reports: the digits that follow the leftmost
/// marker, as a number.
pub open spec fn extracted_height(message: Seq<char>) -> Option<u64> {
    if occurs(message, height_marker()) {
        height_from(message, first_occurrence(message, height_marker()) + height_marker().len())
    } else {
        None
    }
}

/// `digit_run_len` is the one length `n` for which the first `n` characters
/// are digits and the next one, if there is one, is not.
pub proof fn lemma_digit_run_len(s: Seq<char>, n: int)
    requires
        0 <= n <= s.len(),
        all_digits(s.take(n)),
        n == s.len() || !is_digit(s[n]),
    ensures
        digit_run_len(s) == n,
    decreases s.len(),
{
    if n > 0 {
        assert(s.take(n)[0] == s[0]);
        let rest = s.drop_first();
        assert forall|i: int| 0 <= i < n - 1 implies is_digit(#[trigger] rest.take(n - 1)[i]) by {
            assert(rest.take(n - 1)[i] == s.take(n)[i + 1]);
        }
        lemma_digit_run_len(rest, n - 1);
    }
}

/// A run of digits denotes at least what any of its beginnings denotes.
pub proof fn lemma_decimal_value_grows(digits: Seq<char>, n: int)
    requires
        0 <= n <= digits.len(),
    ensures
        decimal_value(digits.take(n)) <= decimal_value(digits),
    decreases digits.len() - n,
{
    if n == digits.len() {
        assert(digits.take(n) =~= digits);
    } else {
        lemma_decimal_value_grows(digits.drop_last(), n);
        assert(digits.drop_last().take(n) =~= digits.take(n));
    }
}

/// The character that stands for a number below ten.
pub open spec fn digit_char(d: nat) -> char
    recommends
        d < 10,
{
    if d == 0 {
        '0'
    } else if d == 1 {
        '1'
    } else if d == 2 {
        '2'
    } else if d == 3 {
        '3'
    } else if d == 4 {
        '4'
    } else if d == 5 {
        '5'
    } else if d == 6 {
        '6'
    } else if d == 7 {
        '7'
    } else if d == 8 {
        '8'
    } else {
        '9'
    }
}

/// A number written in decimal, without leading zeros.
pub open spec fn decimal_digits(n: nat) -> Seq<char>
    decreases n,
{
    if n < 10 {
        seq![digit_char(n)]
    } else {
        decimal_digits(n / 10).push(digit_char(n % 10))
    }
}

/// Writing a number in decimal gives digits, at least one, that denote the
/// number.
pub proof fn lemma_decimal_digits(n: nat)
    ensures
        decimal_digits(n).len() > 0,
        all_digits(decimal_digits(n)),
        decimal_value(decimal_digits(n)) == n,
    decreases n,
{
    if n < 10 {
        let one = seq![digit_char(n)];
        assert(one.drop_last() =~= Seq::<char>::empty());
        assert(decimal_value(one.drop_last()) == 0);
    } else {
        lemma_decimal_digits(n / 10);
        let all = decimal_digits(n);
        assert(all.drop_last() =~= decimal_digits(n / 10));
        assert(all.last() == digit_char(n % 10));
    }
}

/// A message without the marker reports no height.
pub proof fn law_no_height_without_marker(message: Seq<char>)
    requires
        !occurs(message, height_marker()),
    ensures
        extracted_height(message) is None,
{
}

/// A message whose leftmost marker is followed by a run of digits, ended by a
/// character that is no digit or by the end of the message, reports what the
/// digits denote.
pub proof fn law_height_follows_marker(before: Seq<char>, digits: Seq<char>, after: Seq<char>)
    requires
        forall|at: int|
            0 <= at < before.len() ==> !occurs_at(
                before + height_marker() + digits + after,
                height_marker(),
                at,
            ),
        all_digits(digits),
        after.len() == 0 || !is_digit(after[0]),
    ensures
        extracted_height(before + height_marker() + digits + after) == height_of_digits(digits),
{
    let message = before + height_marker() + digits + after;
    let at = before.len() as int;
    let start = at + height_marker().len();
    assert(message.subrange(at, start) =~= height_marker());
    lemma_first_occurrence_is_unique(message, height_marker(), at);
    let tail = message.skip(start);
    assert(tail =~= digits + after);
    assert(tail.take(digits.len() as int) =~= digits);
    lemma_digit_run_len(tail, digits.len() as int);
}

/// The sentence `Block state assertion failed at rollup height <N>.` reports
/// `N`, whatever stands before and after it, as long as the marker does not
/// stand earlier in the message.
pub proof fn law_reported_height_is_extracted(before: Seq<char>, height: u64, after: Seq<char>)
    requires
        forall|at: int|
            0 <= at < before.len() ==> !occurs_at(
                before + height_marker() + decimal_digits(height as nat) + (seq!['.'] + after),
                height_marker(),
                at,
            ),
    ensures
        extracted_height(
            before + height_marker() + decimal_digits(height as nat) + (seq!['.'] + after),
        ) == Some(height),
{
    lemma_decimal_digits(height as nat);
    law_height_follows_marker(before, decimal_digits(height as nat), seq!['.'] + after);
}

/// Whether `c` is one of `0` to `9`.
pub fn is_decimal_digit(c: char) -> (digit: bool)
    ensures
        digit == is_digit(c),
{
    '0' <= c && c <= '9'
}

/// The number that the digits at the start of `text[start..]` denote as a
/// rollup height. There is none where `start` lies beyond the text.
pub fn parse_leading_height(text: &[char], start: usize) -> (height: Option<u64>)
    ensures
        height == height_from(text@, start as int),
{
    if start > text.len() {
        return None;
    }
    let ghost tail = text@.skip(start as int);
    let mut at: usize = start;
    let mut value: u64 = 0;
    let mut overflow: bool = false;
    while at < text.len() && is_decimal_digit(text[at])
        invariant
            start <= at <= text@.len(),
            tail == text@.skip(start as int),
            all_digits(tail.take(at - start)),
            !overflow ==> value == decimal_value(tail.take(at - start)),
            overflow ==> decimal_value(tail.take(at - start)) > u64::MAX,
        decreases text@.len() - at,
    {
        let digit: u64 = (text[at] as u32 - '0' as u32) as u64;
        proof {
            let longer = tail.take(at + 1 - start);
            assert(longer.drop_last() =~= tail.take(at - start));
            assert(longer.last() == text@[at as int]);
            assert forall|i: int| 0 <= i < longer.len() implies is_digit(#[trigger] longer[i]) by {
                if i < at - start {
                    assert(longer[i] == tail.take(at - start)[i]);
                }
            }
            assert(digit == digit_value(text@[at as int]));
        }
        if !overflow {
            if value > (u64::MAX - digit) / 10 {
                overflow = true;
            } else {
                value = value * 10 + digit;
            }
        }
        at += 1;
    }
    proof {
        lemma_digit_run_len(tail, at - start);
    }
    if at == start || overflow {
        None
    } else {
        Some(value)
    }
}

/// Extracts the rollup height from a rejection message.
///
/// The height is the run of decimal digits that follows the leftmost
/// `Block state assertion failed at rollup height ` in the message. There is
/// none where the marker is missing, where no digit follows it, or where the
/// digits denote more than a `u64` holds.
pub fn extract_rollup_height_from_error(error_str: &str) -> (height: Option<u64>)
    ensures
        height == extracted_height(error_str@),
{
    let text = chars_of(error_str);
    let marker = chars_of("Block state assertion failed at rollup height ");
    match find_phrase(text.as_slice(), marker.as_slice()) {
        Some(at) => {
            proof {
                lemma_first_occurrence_is_unique(text@, marker@, at as int);
                assert(at + marker@.len() <= text@.len() == text.len());
            }
            parse_leading_height(text.as_slice(), at + marker.len())
        },
        None => None,
    }
}

} // verus!
