//! Building the text of messages: numbers in decimal and hexadecimal digits,
//! appended to a string.
use vstd::prelude::*;
use vstd::string::StringExecFns;

use crate::file::ratio::lowest_terms;
use crate::file::ratio::reduce_u128;

verus! {

/// The digit of a number below sixteen: `0` to `9`, then `A` to `F`.
pub open spec fn digit(d: nat) -> Seq<char> {
    if d == 0 {
        "0"@
    } else if d == 1 {
        "1"@
    } else if d == 2 {
        "2"@
    } else if d == 3 {
        "3"@
    } else if d == 4 {
        "4"@
    } else if d == 5 {
        "5"@
    } else if d == 6 {
        "6"@
    } else if d == 7 {
        "7"@
    } else if d == 8 {
        "8"@
    } else if d == 9 {
        "9"@
    } else if d == 10 {
        "A"@
    } else if d == 11 {
        "B"@
    } else if d == 12 {
        "C"@
    } else if d == 13 {
        "D"@
    } else if d == 14 {
        "E"@
    } else {
        "F"@
    }
}

/// A number in decimal digits, without leading zeros.
pub open spec fn decimal(n: nat) -> Seq<char>
    decreases n,
{
    if n < 10 {
        digit(n)
    } else {
        decimal(n / 10) + digit(n % 10)
    }
}

/// A number in hexadecimal digits, without leading zeros.
pub open spec fn hexadecimal(n: nat) -> Seq<char>
    decreases n,
{
    if n < 16 {
        digit(n)
    } else {
        hexadecimal(n / 16) + digit(n % 16)
    }
}

/// A number in decimal digits, with a minus sign before a negative one.
pub open spec fn signed_decimal(n: int) -> Seq<char> {
    if n < 0 {
        "-"@ + decimal((-n) as nat)
    } else {
        decimal(n as nat)
    }
}

/// A number in at least two decimal digits.
pub open spec fn two_digits(n: nat) -> Seq<char> {
    if n < 10 {
        "0"@ + digit(n)
    } else {
        decimal(n)
    }
}

/// A number in at least four decimal digits.
pub open spec fn four_digits(n: nat) -> Seq<char> {
    if n < 10 {
        "000"@ + digit(n)
    } else if n < 100 {
        "00"@ + decimal(n)
    } else if n < 1000 {
        "0"@ + decimal(n)
    } else {
        decimal(n)
    }
}

/// A fraction in lowest terms: numerator, stroke and denominator, or the
/// numerator alone where the denominator is 1.
pub open spec fn fraction(numer: nat, denom: nat) -> Seq<char> {
    let r = lowest_terms(numer, denom);
    if r.1 == 1 {
        decimal(r.0)
    } else {
        decimal(r.0) + "/"@ + decimal(r.1)
    }
}

/// A number of tenths with one decimal place: 14 is `1.4`.
pub open spec fn tenths(n: nat) -> Seq<char> {
    decimal(n / 10) + "."@ + digit(n % 10)
}

/// The text of [`digit`].
pub fn digit_str(d: u8) -> (r: &'static str)
    ensures
        r@ == digit(d as nat),
{
    if d == 0 {
        "0"
    } else if d == 1 {
        "1"
    } else if d == 2 {
        "2"
    } else if d == 3 {
        "3"
    } else if d == 4 {
        "4"
    } else if d == 5 {
        "5"
    } else if d == 6 {
        "6"
    } else if d == 7 {
        "7"
    } else if d == 8 {
        "8"
    } else if d == 9 {
        "9"
    } else if d == 10 {
        "A"
    } else if d == 11 {
        "B"
    } else if d == 12 {
        "C"
    } else if d == 13 {
        "D"
    } else if d == 14 {
        "E"
    } else {
        "F"
    }
}

/// Appends [`decimal`].
pub fn push_decimal(s: &mut String, n: u128)
    ensures
        final(s)@ == old(s)@ + decimal(n as nat),
    decreases n,
{
    if n < 10 {
        s.append(digit_str(n as u8));
    } else {
        push_decimal(s, n / 10);
        s.append(digit_str((n % 10) as u8));
        assert(s@ =~= old(s)@ + decimal(n as nat));
    }
}

/// Appends [`hexadecimal`].
pub fn push_hexadecimal(s: &mut String, n: u128)
    ensures
        final(s)@ == old(s)@ + hexadecimal(n as nat),
    decreases n,
{
    if n < 16 {
        s.append(digit_str(n as u8));
    } else {
        push_hexadecimal(s, n / 16);
        s.append(digit_str((n % 16) as u8));
        assert(s@ =~= old(s)@ + hexadecimal(n as nat));
    }
}

/// Appends [`signed_decimal`].
pub fn push_signed_decimal(s: &mut String, n: i64)
    ensures
        final(s)@ == old(s)@ + signed_decimal(n as int),
{
    if n < 0 {
        s.append("-");
        let magnitude: u128 = (-(n as i128)) as u128;
        push_decimal(s, magnitude);
        assert(s@ =~= old(s)@ + signed_decimal(n as int));
    } else {
        push_decimal(s, n as u128);
    }
}

/// Appends [`two_digits`].
pub fn push_two_digits(s: &mut String, n: u128)
    ensures
        final(s)@ == old(s)@ + two_digits(n as nat),
{
    if n < 10 {
        s.append("0");
        s.append(digit_str(n as u8));
        assert(s@ =~= old(s)@ + two_digits(n as nat));
    } else {
        push_decimal(s, n);
    }
}

/// Appends [`four_digits`].
pub fn push_four_digits(s: &mut String, n: u128)
    ensures
        final(s)@ == old(s)@ + four_digits(n as nat),
{
    if n < 10 {
        s.append("000");
        s.append(digit_str(n as u8));
        assert(s@ =~= old(s)@ + four_digits(n as nat));
    } else if n < 100 {
        s.append("00");
        push_decimal(s, n);
        assert(s@ =~= old(s)@ + four_digits(n as nat));
    } else if n < 1000 {
        s.append("0");
        push_decimal(s, n);
        assert(s@ =~= old(s)@ + four_digits(n as nat));
    } else {
        push_decimal(s, n);
    }
}

/// Appends [`fraction`].
pub fn push_fraction(s: &mut String, numer: u128, denom: u128)
    ensures
        final(s)@ == old(s)@ + fraction(numer as nat, denom as nat),
{
    let (n, d) = reduce_u128(numer, denom);
    if d == 1 {
        push_decimal(s, n);
    } else {
        push_decimal(s, n);
        s.append("/");
        push_decimal(s, d);
        assert(s@ =~= old(s)@ + fraction(numer as nat, denom as nat));
    }
}

/// Appends [`tenths`].
pub fn push_tenths(s: &mut String, n: u128)
    ensures
        final(s)@ == old(s)@ + tenths(n as nat),
{
    push_decimal(s, n / 10);
    s.append(".");
    s.append(digit_str((n % 10) as u8));
    assert(s@ =~= old(s)@ + tenths(n as nat));
}

/// Appends a text.
pub fn push_text(s: &mut String, text: &str)
    ensures
        final(s)@ == old(s)@ + text@,
{
    s.append(text);
}

} // verus!
