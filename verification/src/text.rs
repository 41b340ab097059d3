//! Small helpers for the tags and labels that the stores carry as strings.

use vstd::prelude::*;
use vstd::string::StringExecFns;

verus! {

/// The character that writes the decimal digit `d`.
pub open spec fn digit_char(d: nat) -> char {
    if d == 0 {
        '0'
    } else if d == 1 {
        '1'
    } else if d == 2 {
        '2'
    } else if d == 3 {
        '3'
    } else if d == 4 {
        '4'
    } else if d == 5 {
        '5'
    } else if d == 6 {
        '6'
    } else if d == 7 {
        '7'
    } else if d == 8 {
        '8'
    } else {
        '9'
    }
}

/// The decimal numeral of `n`: most significant digit first, no leading zero.
pub open spec fn decimal_digits(n: nat) -> Seq<char>
    decreases n,
{
    if n < 10 {
        seq![digit_char(n)]
    } else {
        decimal_digits(n / 10).push(digit_char(n % 10))
    }
}

/// Formats `n` with `ToString::to_string` of `u32`, which writes the number
/// as its decimal numeral. That the text is `decimal_digits(n)` is taken from
/// the documentation of `u32`'s `Display`, not proved here.
#[verifier::external_body]
pub(crate) fn decimal_string(n: u32) -> (text: String)
    ensures
        text@ == decimal_digits(n as nat),
{
    n.to_string()
}

/// Whether `s` reads exactly as `lit`.
pub fn str_is(s: &String, lit: &str) -> (same: bool)
    ensures
        same == (s@ == lit@),
{
    let other = String::from_str(lit);
    *s == other
}

/// `prefix` followed by the decimal numeral of `n`.
pub fn numbered_tag(prefix: &str, n: u32) -> (tag: String)
    ensures
        tag@ == prefix@ + decimal_digits(n as nat),
{
    let mut tag = String::from_str(prefix);
    let digits = decimal_string(n);
    tag.append(digits.as_str());
    tag
}

} // verus!
