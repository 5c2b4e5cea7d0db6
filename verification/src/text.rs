//! Small helpers for putting text together.

use vstd::prelude::*;
use vstd::string::StringExecFns;

verus! {

/// `label` followed by `detail`.
pub fn labelled(label: &str, detail: &str) -> (text: String)
    ensures
        text@ == label@ + detail@,
{
    let mut text = String::from_str(label);
    text.append(detail);
    text
}

/// The character for a single decimal digit.
pub open spec fn digit(d: nat) -> char
    recommends
        d < 10,
{
    if d == 0 {
        '0'
    } else if d == 1 {
        '1'
    } else if d == 2 {
        '2'
    } else if d == 3 {
        '3'
    } else if d == 4 {
        '4'
    } else if d == 5 {
        '5'
    } else if d == 6 {
        '6'
    } else if d == 7 {
        '7'
    } else if d == 8 {
        '8'
    } else {
        '9'
    }
}

/// A number written in decimal, without sign, padding or leading zeros.
pub open spec fn decimal(n: nat) -> Seq<char>
    decreases n,
{
    if n < 10 {
        seq![digit(n)]
    } else {
        decimal(n / 10).push(digit(n % 10))
    }
}

/// Writes a number in decimal.
///
/// Trusted: formats the number with the standard library's `Display` for
/// `u128`. That prints the decimal digits of the number, most significant
/// first, with no sign, padding or leading zeros, which is what [`decimal`]
/// spells out.
#[verifier::external_body]
pub(crate) fn decimal_text(n: u128) -> (text: String)
    ensures
        text@ == decimal(n as nat),
{
    format!("{}", n)
}

/// An amount of cents written as dollars with two decimals, such as `3.50`;
/// a negative amount starts with a minus sign.
pub open spec fn money(cents: int) -> Seq<char> {
    let size = if cents < 0 {
        -cents
    } else {
        cents
    };
    let sign = if cents < 0 {
        "-"@
    } else {
        ""@
    };
    sign + decimal((size / 100) as nat) + "."@ + decimal((size % 100 / 10) as nat) + decimal(
        (size % 10) as nat,
    )
}

/// Writes an amount of cents as dollars with two decimals.
pub fn money_text(cents: i128) -> (text: String)
    ensures
        text@ == money(cents as int),
{
    let size: u128 = if cents >= 0 {
        cents as u128
    } else {
        (-(cents + 1)) as u128 + 1
    };
    let mut text = String::from_str(if cents < 0 {
        "-"
    } else {
        ""
    });
    let dollars = decimal_text(size / 100);
    let dimes = decimal_text(size % 100 / 10);
    let pennies = decimal_text(size % 10);
    text.append(dollars.as_str());
    text.append(".");
    text.append(dimes.as_str());
    text.append(pennies.as_str());
    text
}

} // verus!
