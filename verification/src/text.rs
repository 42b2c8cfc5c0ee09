//! How numbers and optional strings are written on the screen.

use num_format::{Locale, ToFormattedString};
use vstd::prelude::*;

verus! {

/// The character of one decimal digit.
pub open spec fn digit_char(d: int) -> char {
    if d == 0 {
        '0'
    } else if d == 1 {
        '1'
    } else if d == 2 {
        '2'
    } else if d == 3 {
        '3'
    } else if d == 4 {
        '4'
    } else if d == 5 {
        '5'
    } else if d == 6 {
        '6'
    } else if d == 7 {
        '7'
    } else if d == 8 {
        '8'
    } else {
        '9'
    }
}

/// A number in decimal digits, without leading zeros.
pub open spec fn decimal(n: nat) -> Seq<char>
    decreases n,
{
    if n < 10 {
        seq![digit_char(n as int)]
    } else {
        decimal(n / 10).push(digit_char((n % 10) as int))
    }
}

/// A whole number in decimal digits, with `-` before a negative one.
pub open spec fn signed_decimal(n: int) -> Seq<char> {
    if n < 0 {
        seq!['-'] + decimal((-n) as nat)
    } else {
        decimal(n as nat)
    }
}

/// The three decimal digits of a number below one thousand, zeros included.
pub open spec fn three_digits(n: nat) -> Seq<char> {
    seq![
        digit_char((n / 100 % 10) as int),
        digit_char((n / 10 % 10) as int),
        digit_char((n % 10) as int),
    ]
}

/// A number in decimal digits, in groups of three from the right with a comma
/// between the groups: `1,234,567`.
pub open spec fn grouped(n: nat) -> Seq<char>
    decreases n,
{
    if n < 1000 {
        decimal(n)
    } else {
        grouped(n / 1000) + seq![','] + three_digits(n % 1000)
    }
}

/// What stands for an optional string: the string, or the fallback where
/// there is none.
pub open spec fn text_or(value: Option<String>, fallback: Seq<char>) -> Seq<char> {
    match value {
        Some(s) => s@,
        None => fallback,
    }
}

/// The texts of a list of strings.
pub open spec fn texts(items: Seq<String>) -> Seq<Seq<char>> {
    Seq::new(items.len(), |i: int| items[i]@)
}

/// Calls `u32`'s `to_string`. Claims what std documents of it: the number in
/// decimal digits.
#[verifier::external_body]
pub(crate) fn u32_to_string(n: u32) -> (s: String)
    ensures
        s@ == decimal(n as nat),
{
    n.to_string()
}

/// Calls `i64`'s `to_string`. Claims what std documents of it: the number in
/// decimal digits, after a `-` where it is negative.
#[verifier::external_body]
pub(crate) fn i64_to_string(n: i64) -> (s: String)
    ensures
        s@ == signed_decimal(n as int),
{
    n.to_string()
}

/// Calls `num_format`'s `to_formatted_string` with the locale `en`. Claims
/// what its documentation says of that locale: decimal digits in groups of
/// three, with a comma as the separator.
#[verifier::external_body]
pub(crate) fn group_digits(n: u32) -> (s: String)
    ensures
        s@ == grouped(n as nat),
{
    n.to_formatted_string(&Locale::en)
}

/// The string, or the fallback where there is none.
pub fn or_text(value: &Option<String>, fallback: &str) -> (s: String)
    ensures
        s@ == text_or(*value, fallback@),
{
    match value {
        Some(v) => v.clone(),
        None => String::from_str(fallback),
    }
}

} // verus!
