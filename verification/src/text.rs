//! Text: the comparisons that routing rests on, and decimal numerals.

use vstd::prelude::*;
use vstd::string::StringExecFns;

verus! {

/// `needle` occurs in `text` as a run of consecutive characters.
pub open spec fn occurs_in(needle: Seq<char>, text: Seq<char>) -> bool {
    exists|at: int|
        0 <= at <= text.len() - needle.len() && #[trigger] text.subrange(
            at,
            at + needle.len(),
        ) == needle
}

/// The lower-case form of a text as `str::to_lowercase` defines it, by the
/// Unicode `Lowercase` mapping.
pub uninterp spec fn lowercase_of(text: Seq<char>) -> Seq<char>;

/// Calls `str::eq`.
///
/// Trusted: two strings are equal exactly if they hold the same characters.
#[verifier::external_body]
pub(crate) fn same_text(left: &str, right: &str) -> (same: bool)
    ensures
        same == (left@ == right@),
{
    left == right
}

/// Calls `str::starts_with` with a string pattern.
///
/// Trusted: the method tells whether the pattern is a prefix of the text.
#[verifier::external_body]
pub(crate) fn begins_with(text: &str, prefix: &str) -> (begins: bool)
    ensures
        begins == prefix@.is_prefix_of(text@),
{
    text.starts_with(prefix)
}

/// Calls `str::contains` with a string pattern.
///
/// Trusted: the method tells whether the pattern matches a sub-slice of the
/// text.
#[verifier::external_body]
pub(crate) fn includes(text: &str, needle: &str) -> (found: bool)
    ensures
        found == occurs_in(needle@, text@),
{
    text.contains(needle)
}

/// Calls `str::to_lowercase`.
///
/// Trusted: the result is the lower-case form of the text, which depends on
/// the text alone.
#[verifier::external_body]
pub(crate) fn lowercased(text: &str) -> (lower: String)
    ensures
        lower@ == lowercase_of(text@),
{
    text.to_lowercase()
}

/// The character of a decimal digit.
pub open spec fn digit_char(digit: int) -> char {
    if digit == 0 {
        '0'
    } else if digit == 1 {
        '1'
    } else if digit == 2 {
        '2'
    } else if digit == 3 {
        '3'
    } else if digit == 4 {
        '4'
    } else if digit == 5 {
        '5'
    } else if digit == 6 {
        '6'
    } else if digit == 7 {
        '7'
    } else if digit == 8 {
        '8'
    } else {
        '9'
    }
}

/// The decimal numeral of a natural number, without leading zeros.
pub open spec fn numeral_of_nat(number: nat) -> Seq<char>
    decreases number,
{
    if number < 10 {
        seq![digit_char(number as int)]
    } else {
        numeral_of_nat(number / 10).push(digit_char((number % 10) as int))
    }
}

/// The decimal numeral of an integer, with a minus sign if it is negative.
pub open spec fn numeral_of(number: int) -> Seq<char> {
    if number < 0 {
        seq!['-'] + numeral_of_nat((-number) as nat)
    } else {
        numeral_of_nat(number as nat)
    }
}

/// The one-character text of a decimal digit.
fn digit_text(digit: u64) -> (text: &'static str)
    requires
        digit < 10,
    ensures
        text@ == seq![digit_char(digit as int)],
{
    proof {
        reveal_strlit("0");
        reveal_strlit("1");
        reveal_strlit("2");
        reveal_strlit("3");
        reveal_strlit("4");
        reveal_strlit("5");
        reveal_strlit("6");
        reveal_strlit("7");
        reveal_strlit("8");
        reveal_strlit("9");
    }
    let text = if digit == 0 {
        "0"
    } else if digit == 1 {
        "1"
    } else if digit == 2 {
        "2"
    } else if digit == 3 {
        "3"
    } else if digit == 4 {
        "4"
    } else if digit == 5 {
        "5"
    } else if digit == 6 {
        "6"
    } else if digit == 7 {
        "7"
    } else if digit == 8 {
        "8"
    } else {
        "9"
    };
    assert(text@ =~= seq![digit_char(digit as int)]);
    text
}

/// Writes an unsigned number in decimal.
pub fn numeral_u64(number: u64) -> (numeral: String)
    ensures
        numeral@ == numeral_of_nat(number as nat),
    decreases number,
{
    if number < 10 {
        String::from_str(digit_text(number))
    } else {
        let mut numeral = numeral_u64(number / 10);
        let last = digit_text(number % 10);
        numeral.append(last);
        assert(numeral@ =~= numeral_of_nat((number / 10) as nat).push(
            digit_char((number % 10) as int),
        ));
        numeral
    }
}

/// Writes a signed number in decimal.
pub fn numeral_i64(number: i64) -> (numeral: String)
    ensures
        numeral@ == numeral_of(number as int),
{
    if number < 0 {
        let magnitude: u64 = if number == i64::MIN {
            0x8000_0000_0000_0000
        } else {
            (-number) as u64
        };
        let digits = numeral_u64(magnitude);
        let mut numeral = String::from_str("-");
        numeral.append(digits.as_str());
        proof {
            reveal_strlit("-");
            assert("-"@ =~= seq!['-']);
        }
        numeral
    } else {
        numeral_u64(number as u64)
    }
}

} // verus!
