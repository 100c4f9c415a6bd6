//! The few string operations of the standard library that the rest of the
//! crate builds on, each with the contract it is trusted to meet.

use vstd::prelude::*;

verus! {

/// The lower-case form of `text`, as the standard library computes it from
/// the Unicode character tables.
pub uninterp spec fn lowercase(text: Seq<char>) -> Seq<char>;

/// `text` without its leading and trailing white space, as the standard
/// library tells white space from the Unicode character tables.
pub uninterp spec fn trimmed(text: Seq<char>) -> Seq<char>;

/// Whether `needle` occurs in `haystack` as a contiguous run of characters.
pub open spec fn occurs_in(needle: Seq<char>, haystack: Seq<char>) -> bool {
    exists|start: int|
        0 <= start && start + needle.len() <= haystack.len() && #[trigger] haystack.subrange(
            start,
            start + needle.len(),
        ) == needle
}

/// Whether every character of `digits` is an ASCII decimal digit and there
/// is at least one.
pub open spec fn is_decimal(digits: Seq<char>) -> bool {
    digits.len() > 0 && forall|i: int| 0 <= i < digits.len() ==> '0' <= #[trigger] digits[i] <= '9'
}

/// The number that the decimal digits `digits` write.
pub open spec fn decimal_value(digits: Seq<char>) -> nat
    decreases digits.len(),
{
    if digits.len() == 0 {
        0
    } else {
        decimal_value(digits.drop_last()) * 10 + (digits.last() as nat - '0' as nat) as nat
    }
}

/// The decimal digits that write `number`, without leading zeros.
pub open spec fn decimal_digits(number: nat) -> Seq<char>
    decreases number,
{
    let last = ('0' as nat + number % 10) as char;
    if number < 10 {
        seq![last]
    } else {
        decimal_digits(number / 10).push(last)
    }
}

/// `text` without one leading plus sign, if it has one.
pub open spec fn without_plus(text: Seq<char>) -> Seq<char> {
    if text.len() > 0 && text[0] == '+' {
        text.subrange(1, text.len() as int)
    } else {
        text
    }
}

/// The unsigned number that `text` writes, if it writes one that is at most
/// `max`: an optional plus sign, then decimal digits and nothing else.
pub open spec fn parsed_unsigned(text: Seq<char>, max: nat) -> Option<nat> {
    let digits = without_plus(text);
    if is_decimal(digits) && decimal_value(digits) <= max {
        Some(decimal_value(digits))
    } else {
        None
    }
}

/// What is written can be read back: the decimal digits of a number are
/// well-formed and write that number, with any limit that the number meets.
pub proof fn lemma_decimal_round_trip(number: nat, max: nat)
    requires
        number <= max,
    ensures
        is_decimal(decimal_digits(number)),
        decimal_value(decimal_digits(number)) == number,
        parsed_unsigned(decimal_digits(number), max) == Some(number),
    decreases number,
{
    let digits = decimal_digits(number);
    let last = ('0' as nat + number % 10) as char;
    assert('0' <= last <= '9');
    assert(last as nat - '0' as nat == number % 10);
    if number < 10 {
        assert(digits =~= seq![last]);
        assert(digits.drop_last() =~= Seq::<char>::empty());
        assert(decimal_value(digits.drop_last()) == 0);
    } else {
        lemma_decimal_round_trip(number / 10, number / 10);
        let head = decimal_digits(number / 10);
        assert(digits.drop_last() =~= head);
        assert(digits.last() == last);
        assert forall|i: int| 0 <= i < digits.len() implies '0' <= #[trigger] digits[i]
            <= '9' by {
            if i < head.len() {
                assert(digits[i] == head[i]);
            }
        }
    }
    assert(digits[0] != '+');
    assert(without_plus(digits) == digits);
}

/// `str::eq`: two string slices are equal exactly when they hold the same
/// characters in the same order.
#[verifier::external_body]
pub(crate) fn str_eq(left: &str, right: &str) -> (same: bool)
    ensures
        same == (left@ == right@),
{
    left == right
}

/// `str::to_lowercase`: the result is the lower-case form of the argument.
/// Which characters that form holds is left to the standard library.
#[verifier::external_body]
pub(crate) fn to_lowercase(text: &str) -> (lowered: String)
    ensures
        lowered@ == lowercase(text@),
{
    text.to_lowercase()
}

/// `str::trim`: the result is the argument without leading and trailing
/// white space. Which characters count as white space is left to the
/// standard library.
#[verifier::external_body]
pub(crate) fn trim(text: &str) -> (inner: &str)
    ensures
        inner@ == trimmed(text@),
{
    text.trim()
}

/// `str::contains` with a string pattern: true exactly when the pattern
/// matches a sub-slice of the text.
#[verifier::external_body]
pub(crate) fn contains(haystack: &str, needle: &str) -> (found: bool)
    ensures
        found == occurs_in(needle@, haystack@),
{
    haystack.contains(needle)
}

/// `u64::to_string`: the number in decimal digits, without sign or leading
/// zeros.
#[verifier::external_body]
pub(crate) fn decimal(number: u64) -> (text: String)
    ensures
        text@ == decimal_digits(number as nat),
{
    number.to_string()
}

/// `str::parse::<u64>`: accepts an optional plus sign followed by decimal
/// digits only, and fails on anything else and on a number above `u64::MAX`.
#[verifier::external_body]
pub(crate) fn parse_u64(text: &str) -> (number: Option<u64>)
    ensures
        number matches Some(n) ==> parsed_unsigned(text@, u64::MAX as nat) == Some(n as nat),
        number is None ==> parsed_unsigned(text@, u64::MAX as nat) is None,
{
    text.parse::<u64>().ok()
}

/// `str::parse::<usize>`: accepts an optional plus sign followed by decimal
/// digits only, and fails on anything else and on a number above
/// `usize::MAX`.
#[verifier::external_body]
pub(crate) fn parse_usize(text: &str) -> (number: Option<usize>)
    ensures
        number matches Some(n) ==> parsed_unsigned(text@, usize::MAX as nat) == Some(n as nat),
        number is None ==> parsed_unsigned(text@, usize::MAX as nat) is None,
{
    text.parse::<usize>().ok()
}

} // verus!
