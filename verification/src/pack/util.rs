//! Bit fields of a byte and binary-coded decimal digits.
use vstd::prelude::*;

use crate::text::decimal;
use crate::text::push_decimal;
use crate::text::push_text;

verus! {

/// Two to the power of `n`, for the bit positions of a byte.
pub open spec fn pow2(n: nat) -> nat {
    if n == 0 {
        1
    } else if n == 1 {
        2
    } else if n == 2 {
        4
    } else if n == 3 {
        8
    } else if n == 4 {
        16
    } else if n == 5 {
        32
    } else if n == 6 {
        64
    } else if n == 7 {
        128
    } else {
        256
    }
}

/// The byte without its lowest `lo` bits: the byte divided by two to the
/// power of `lo`.
pub open spec fn drop_low(byte: u8, lo: nat) -> nat {
    if lo == 0 {
        byte as nat
    } else if lo == 1 {
        byte as nat / 2
    } else if lo == 2 {
        byte as nat / 4
    } else if lo == 3 {
        byte as nat / 8
    } else if lo == 4 {
        byte as nat / 16
    } else if lo == 5 {
        byte as nat / 32
    } else if lo == 6 {
        byte as nat / 64
    } else if lo == 7 {
        byte as nat / 128
    } else {
        0
    }
}

/// The lowest `width` bits of a value: its remainder by two to the power of
/// `width`.
pub open spec fn keep_low(value: nat, width: nat) -> nat {
    if width == 0 {
        0
    } else if width == 1 {
        value % 2
    } else if width == 2 {
        value % 4
    } else if width == 3 {
        value % 8
    } else if width == 4 {
        value % 16
    } else if width == 5 {
        value % 32
    } else if width == 6 {
        value % 64
    } else if width == 7 {
        value % 128
    } else {
        value % 256
    }
}

/// The field of `width` bits that starts at bit `lo` of the byte, bit 0 being
/// the least significant.
pub open spec fn bits(byte: u8, lo: nat, width: nat) -> u8 {
    keep_low(drop_low(byte, lo), width) as u8
}

/// Bit `n` of the byte.
pub open spec fn bit(byte: u8, n: nat) -> bool {
    bits(byte, n, 1) == 1
}

/// A field's value moved to bit `lo`: the value times two to the power of
/// `lo`.
pub open spec fn place(value: u8, lo: nat) -> nat {
    if lo == 0 {
        value as nat
    } else if lo == 1 {
        value as nat * 2
    } else if lo == 2 {
        value as nat * 4
    } else if lo == 3 {
        value as nat * 8
    } else if lo == 4 {
        value as nat * 16
    } else if lo == 5 {
        value as nat * 32
    } else if lo == 6 {
        value as nat * 64
    } else if lo == 7 {
        value as nat * 128
    } else {
        value as nat * 256
    }
}

/// The byte with the field of `width` bits at bit `lo` set to `value`.
pub open spec fn with_bits(byte: u8, lo: nat, width: nat, value: u8) -> u8 {
    (byte - place(bits(byte, lo, width), lo) + place(value, lo)) as u8
}

/// A flag as the number of one bit.
pub open spec fn flag(set: bool) -> u8 {
    if set {
        1
    } else {
        0
    }
}

fn power_of_two(n: u8) -> (r: u16)
    requires
        n <= 8,
    ensures
        r == pow2(n as nat),
{
    if n == 0 {
        1
    } else if n == 1 {
        2
    } else if n == 2 {
        4
    } else if n == 3 {
        8
    } else if n == 4 {
        16
    } else if n == 5 {
        32
    } else if n == 6 {
        64
    } else if n == 7 {
        128
    } else {
        256
    }
}

/// Reads [`bits`].
pub fn get_bits(byte: u8, lo: u8, width: u8) -> (r: u8)
    requires
        lo + width <= 8,
    ensures
        r == bits(byte, lo as nat, width as nat),
        r < pow2(width as nat),
{
    let high: u8 = if lo == 0 {
        byte
    } else if lo == 1 {
        byte / 2
    } else if lo == 2 {
        byte / 4
    } else if lo == 3 {
        byte / 8
    } else if lo == 4 {
        byte / 16
    } else if lo == 5 {
        byte / 32
    } else if lo == 6 {
        byte / 64
    } else if lo == 7 {
        byte / 128
    } else {
        0
    };
    if width == 0 {
        0
    } else if width == 1 {
        high % 2
    } else if width == 2 {
        high % 4
    } else if width == 3 {
        high % 8
    } else if width == 4 {
        high % 16
    } else if width == 5 {
        high % 32
    } else if width == 6 {
        high % 64
    } else if width == 7 {
        high % 128
    } else {
        high
    }
}

/// Reads [`bit`].
pub fn get_bit(byte: u8, n: u8) -> (r: bool)
    requires
        n < 8,
    ensures
        r == bit(byte, n as nat),
{
    get_bits(byte, n, 1) == 1
}

/// [`flag`], for writing a byte.
pub fn flag_bit(set: bool) -> (r: u8)
    ensures
        r == flag(set),
        r <= 1,
{
    if set {
        1
    } else {
        0
    }
}

/// A byte is the sum of its fields of 4, 2, 1 and 1 bits, lowest first, each at its place.
pub proof fn lemma_byte_4_2_1_1(byte: u8)
    ensures
        byte == bits(byte, 0, 4) + 16 * bits(byte, 4, 2) + 64 * bits(byte, 6, 1)
            + 128 * bits(byte, 7, 1),
        bits(byte, 0, 4) < 16,
        bits(byte, 4, 2) < 4,
        bits(byte, 6, 1) < 2,
        bits(byte, 7, 1) < 2,
{
}

/// A byte is the sum of its fields of 4, 3 and 1 bits, lowest first, each at its place.
pub proof fn lemma_byte_4_3_1(byte: u8)
    ensures
        byte == bits(byte, 0, 4) + 16 * bits(byte, 4, 3) + 128 * bits(byte, 7, 1),
        bits(byte, 0, 4) < 16,
        bits(byte, 4, 3) < 8,
        bits(byte, 7, 1) < 2,
{
}

/// A byte is the sum of its fields of 4 and 4 bits, lowest first, each at its place.
pub proof fn lemma_byte_4_4(byte: u8)
    ensures
        byte == bits(byte, 0, 4) + 16 * bits(byte, 4, 4),
        bits(byte, 0, 4) < 16,
        bits(byte, 4, 4) < 16,
{
}

/// A byte is the sum of its fields of 4, 2 and 2 bits, lowest first, each at its place.
pub proof fn lemma_byte_4_2_2(byte: u8)
    ensures
        byte == bits(byte, 0, 4) + 16 * bits(byte, 4, 2) + 64 * bits(byte, 6, 2),
        bits(byte, 0, 4) < 16,
        bits(byte, 4, 2) < 4,
        bits(byte, 6, 2) < 4,
{
}

/// A byte is the sum of its fields of 4, 1 and 3 bits, lowest first, each at its place.
pub proof fn lemma_byte_4_1_3(byte: u8)
    ensures
        byte == bits(byte, 0, 4) + 16 * bits(byte, 4, 1) + 32 * bits(byte, 5, 3),
        bits(byte, 0, 4) < 16,
        bits(byte, 4, 1) < 2,
        bits(byte, 5, 3) < 8,
{
}

/// A byte is the sum of its fields of 2, 2, 2 and 2 bits, lowest first, each at its place.
pub proof fn lemma_byte_2_2_2_2(byte: u8)
    ensures
        byte == bits(byte, 0, 2) + 4 * bits(byte, 2, 2) + 16 * bits(byte, 4, 2)
            + 64 * bits(byte, 6, 2),
        bits(byte, 0, 2) < 4,
        bits(byte, 2, 2) < 4,
        bits(byte, 4, 2) < 4,
        bits(byte, 6, 2) < 4,
{
}

/// A byte is the sum of its fields of 3, 3, 1 and 1 bits, lowest first, each at its place.
pub proof fn lemma_byte_3_3_1_1(byte: u8)
    ensures
        byte == bits(byte, 0, 3) + 8 * bits(byte, 3, 3) + 64 * bits(byte, 6, 1)
            + 128 * bits(byte, 7, 1),
        bits(byte, 0, 3) < 8,
        bits(byte, 3, 3) < 8,
        bits(byte, 6, 1) < 2,
        bits(byte, 7, 1) < 2,
{
}

/// A byte is the sum of its fields of 7 and 1 bits, lowest first, each at its place.
pub proof fn lemma_byte_7_1(byte: u8)
    ensures
        byte == bits(byte, 0, 7) + 128 * bits(byte, 7, 1),
        bits(byte, 0, 7) < 128,
        bits(byte, 7, 1) < 2,
{
}

/// A byte is the sum of its fields of 6, 1 and 1 bits, lowest first, each at its place.
pub proof fn lemma_byte_6_1_1(byte: u8)
    ensures
        byte == bits(byte, 0, 6) + 64 * bits(byte, 6, 1) + 128 * bits(byte, 7, 1),
        bits(byte, 0, 6) < 64,
        bits(byte, 6, 1) < 2,
        bits(byte, 7, 1) < 2,
{
}

/// A byte is the sum of its fields of 4, 1, 2 and 1 bits, lowest first, each at its place.
pub proof fn lemma_byte_4_1_2_1(byte: u8)
    ensures
        byte == bits(byte, 0, 4) + 16 * bits(byte, 4, 1) + 32 * bits(byte, 5, 2)
            + 128 * bits(byte, 7, 1),
        bits(byte, 0, 4) < 16,
        bits(byte, 4, 1) < 2,
        bits(byte, 5, 2) < 4,
        bits(byte, 7, 1) < 2,
{
}

/// A byte is the sum of its fields of 3, 1, 2, 1 and 1 bits, lowest first, each at its place.
pub proof fn lemma_byte_3_1_2_1_1(byte: u8)
    ensures
        byte == bits(byte, 0, 3) + 8 * bits(byte, 3, 1) + 16 * bits(byte, 4, 2)
            + 64 * bits(byte, 6, 1) + 128 * bits(byte, 7, 1),
        bits(byte, 0, 3) < 8,
        bits(byte, 3, 1) < 2,
        bits(byte, 4, 2) < 4,
        bits(byte, 6, 1) < 2,
        bits(byte, 7, 1) < 2,
{
}

/// A byte is the sum of its fields of 5, 1, 1 and 1 bits, lowest first, each at its place.
pub proof fn lemma_byte_5_1_1_1(byte: u8)
    ensures
        byte == bits(byte, 0, 5) + 32 * bits(byte, 5, 1) + 64 * bits(byte, 6, 1)
            + 128 * bits(byte, 7, 1),
        bits(byte, 0, 5) < 32,
        bits(byte, 5, 1) < 2,
        bits(byte, 6, 1) < 2,
        bits(byte, 7, 1) < 2,
{
}

/// A byte is the sum of its fields of 2, 1, 1, 1, 1, 1 and 1 bits, lowest first, each at its place.
pub proof fn lemma_byte_2_1_1_1_1_1_1(byte: u8)
    ensures
        byte == bits(byte, 0, 2) + 4 * bits(byte, 2, 1) + 8 * bits(byte, 3, 1)
            + 16 * bits(byte, 4, 1) + 32 * bits(byte, 5, 1) + 64 * bits(byte, 6, 1)
            + 128 * bits(byte, 7, 1),
        bits(byte, 0, 2) < 4,
        bits(byte, 2, 1) < 2,
        bits(byte, 3, 1) < 2,
        bits(byte, 4, 1) < 2,
        bits(byte, 5, 1) < 2,
        bits(byte, 6, 1) < 2,
        bits(byte, 7, 1) < 2,
{
    let low = bits(byte, 0, 4);
    let high = bits(byte, 4, 4);
    assert(byte == low + 16 * high);
    assert(low == bits(byte, 0, 2) + 4 * bits(byte, 2, 1) + 8 * bits(byte, 3, 1));
    assert(high == bits(byte, 4, 1) + 2 * bits(byte, 5, 1) + 4 * bits(byte, 6, 1) + 8 * bits(
        byte,
        7,
        1,
    ));
}

/// A byte is the sum of its fields of 6 and 2 bits, lowest first, each at its place.
pub proof fn lemma_byte_6_2(byte: u8)
    ensures
        byte == bits(byte, 0, 6) + 64 * bits(byte, 6, 2),
        bits(byte, 0, 6) < 64,
        bits(byte, 6, 2) < 4,
{
}

/// A byte is the sum of its fields of 5 and 3 bits, lowest first, each at its place.
pub proof fn lemma_byte_5_3(byte: u8)
    ensures
        byte == bits(byte, 0, 5) + 32 * bits(byte, 5, 3),
        bits(byte, 0, 5) < 32,
        bits(byte, 5, 3) < 8,
{
}

/// The two halves of a byte are read back from the byte that they make.
pub proof fn lemma_nibbles(low: u8, high: u8)
    requires
        low <= 15,
        high <= 15,
    ensures
        bits((low + 16 * high) as u8, 0, 4) == low,
        bits((low + 16 * high) as u8, 4, 4) == high,
{
}

/// A byte is the sum of its fields of 5, 1 and 2 bits, lowest first, each at its place.
pub proof fn lemma_byte_5_1_2(byte: u8)
    ensures
        byte == bits(byte, 0, 5) + 32 * bits(byte, 5, 1) + 64 * bits(byte, 6, 2),
        bits(byte, 0, 5) < 32,
        bits(byte, 5, 1) < 2,
        bits(byte, 6, 2) < 4,
{
}

/// Which digit of a binary-coded decimal number is meant.
#[derive(Debug, PartialEq, Eq, Clone, Copy, Structural)]
pub enum BcdPlace {
    Hundreds,
    Tens,
    Units,
}

/// A binary-coded decimal digit above 9 that is no part of an absent number.
#[derive(Debug, PartialEq, Eq, Clone, Copy, Structural)]
pub struct BcdError {
    pub place: BcdPlace,
    pub value: u8,
}

impl BcdPlace {
    /// The name of the place.
    pub open spec fn name_text(&self) -> Seq<char> {
        match *self {
            BcdPlace::Hundreds => "hundreds"@,
            BcdPlace::Tens => "tens"@,
            BcdPlace::Units => "units"@,
        }
    }

    /// The name of the place.
    pub fn name(&self) -> (r: &'static str)
        ensures
            r@ == self.name_text(),
    {
        match *self {
            BcdPlace::Hundreds => "hundreds",
            BcdPlace::Tens => "tens",
            BcdPlace::Units => "units",
        }
    }
}

impl BcdError {
    /// The text of the message that names the place and quotes the digit.
    pub open spec fn text(&self) -> Seq<char> {
        match *self {
            BcdError { place, value } => Seq::<char>::empty()
                + place.name_text()
                + " place value of "@
                + decimal(value as nat)
                + " is greater than 9"@,
        }
    }

    /// The message that names the place and quotes the digit.
    pub fn message(&self) -> (r: String)
        ensures
            r@ == self.text(),
    {
        let mut s = String::new();
        match *self {
            BcdError { place, value } => {
                push_text(&mut s, place.name());
                push_text(&mut s, " place value of ");
                push_decimal(&mut s, value as u128);
                push_text(&mut s, " is greater than 9");
            },
        }
        s
    }
}

/// The largest value of a field of `width` bits: all of its bits set.
pub open spec fn all_ones(width: nat) -> nat {
    (pow2(width) - 1) as nat
}

/// A two-digit binary-coded decimal number: absent where every bit of both
/// digits is set (the tens digit has `tens_width` bits, the units digit four),
/// an error at the first digit above 9, else `tens * 10 + units`.
pub open spec fn bcd_tens(tens: u8, tens_width: nat, units: u8) -> Result<Option<u8>, BcdError> {
    if tens == all_ones(tens_width) && units == 15 {
        Ok(None)
    } else if tens > 9 {
        Err(BcdError { place: BcdPlace::Tens, value: tens })
    } else if units > 9 {
        Err(BcdError { place: BcdPlace::Units, value: units })
    } else {
        Ok(Some((tens * 10 + units) as u8))
    }
}

/// A three-digit binary-coded decimal number, read as [`bcd_tens`] reads two
/// digits.
pub open spec fn bcd_hundreds(hundreds: u8, hundreds_width: nat, tens: u8, units: u8) -> Result<
    Option<u16>,
    BcdError,
> {
    if hundreds == all_ones(hundreds_width) && tens == 15 && units == 15 {
        Ok(None)
    } else if hundreds > 9 {
        Err(BcdError { place: BcdPlace::Hundreds, value: hundreds })
    } else if tens > 9 {
        Err(BcdError { place: BcdPlace::Tens, value: tens })
    } else if units > 9 {
        Err(BcdError { place: BcdPlace::Units, value: units })
    } else {
        Ok(Some((hundreds * 100 + tens * 10 + units) as u16))
    }
}

/// Converts a binary-coded decimal value of two digits into a number.
///
/// If every bit of the digits is set, the number is absent (`None`).
pub fn from_bcd_tens(tens: u8, tens_width: u8, units: u8) -> (r: Result<Option<u8>, BcdError>)
    requires
        1 <= tens_width <= 4,
        tens < pow2(tens_width as nat),
        units < 16,
    ensures
        r == bcd_tens(tens, tens_width as nat, units),
{
    let max: u16 = power_of_two(tens_width) - 1;
    if tens as u16 == max && units == 15 {
        return Ok(None);
    }
    if tens > 9 {
        return Err(BcdError { place: BcdPlace::Tens, value: tens });
    }
    if units > 9 {
        return Err(BcdError { place: BcdPlace::Units, value: units });
    }
    Ok(Some(tens * 10 + units))
}

/// Converts a binary-coded decimal value of three digits into a number.
///
/// If every bit of the digits is set, the number is absent (`None`).
pub fn from_bcd_hundreds(hundreds: u8, hundreds_width: u8, tens: u8, units: u8) -> (r: Result<
    Option<u16>,
    BcdError,
>)
    requires
        1 <= hundreds_width <= 4,
        hundreds < pow2(hundreds_width as nat),
        tens < 16,
        units < 16,
    ensures
        r == bcd_hundreds(hundreds, hundreds_width as nat, tens, units),
{
    let max: u16 = power_of_two(hundreds_width) - 1;
    if hundreds as u16 == max && tens == 15 && units == 15 {
        return Ok(None);
    }
    if hundreds > 9 {
        return Err(BcdError { place: BcdPlace::Hundreds, value: hundreds });
    }
    if tens > 9 {
        return Err(BcdError { place: BcdPlace::Tens, value: tens });
    }
    if units > 9 {
        return Err(BcdError { place: BcdPlace::Units, value: units });
    }
    Ok(Some(hundreds as u16 * 100 + tens as u16 * 10 + units as u16))
}

} // verus!
