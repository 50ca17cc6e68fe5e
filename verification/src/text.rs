//! Numbers as text.

use vstd::prelude::*;

verus! {

/// The text of an optional string, where there is one.
pub open spec fn text_of(text: Option<String>) -> Option<Seq<char>> {
    match text {
        Some(text) => Some(text@),
        None => None,
    }
}

/// The text of an optional string slice, where there is one.
pub open spec fn slice_text_of(text: Option<&str>) -> Option<Seq<char>> {
    match text {
        Some(text) => Some(text@),
        None => None,
    }
}

/// The character of a decimal digit.
pub open spec fn digit(d: int) -> char
    recommends
        0 <= d < 10,
{
    seq!['0', '1', '2', '3', '4', '5', '6', '7', '8', '9'][d]
}

/// The decimal digits of `n`, most significant first, without leading zeros.
pub open spec fn digits(n: nat) -> Seq<char>
    decreases n,
{
    if n < 10 {
        seq![digit(n as int)]
    } else {
        digits(n / 10).push(digit((n % 10) as int))
    }
}

/// `n` written in decimal, with a minus sign in front where it is negative.
pub open spec fn decimal(n: int) -> Seq<char> {
    if n < 0 {
        seq!['-'] + digits((-n) as nat)
    } else {
        digits(n as nat)
    }
}

/// `i32::to_string`, which writes an integer as `Display` shows it: its
/// decimal digits without leading zeros, and a minus sign before a negative
/// number. The contract says that and is taken on trust.
#[verifier::external_body]
pub(crate) fn decimal_string(n: i32) -> (text: String)
    ensures
        text@ == decimal(n as int),
{
    n.to_string()
}

} // verus!
