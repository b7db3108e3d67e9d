//! Conversion between the framework's fractions of two `i32` and fractions of
//! unsigned integers.
use vstd::prelude::*;

use crate::file::ratio::lowest_terms;
use crate::file::ratio::reduce_u128;
use crate::file::Ratio;

verus! {

/// An unsigned integer type that a [`Ratio`] can be made of.
pub trait RatioInteger: Sized + Copy {
    /// The number that the value stands for.
    spec fn value(self) -> nat;

    /// The largest number of the type.
    spec fn largest() -> nat;

    /// The value as 128 bits.
    fn widen(self) -> (r: u128)
        ensures
            r == self.value(),
            self.value() <= Self::largest(),
    ;

    /// The value of the type that stands for the number, if there is one.
    fn narrow(v: u128) -> (r: Option<Self>)
        ensures
            r is Some <==> v <= Self::largest(),
            r is Some ==> r->Some_0.value() == v,
    ;
}

impl RatioInteger for u32 {
    open spec fn value(self) -> nat {
        self as nat
    }

    open spec fn largest() -> nat {
        0xFFFF_FFFF
    }

    fn widen(self) -> (r: u128) {
        self as u128
    }

    fn narrow(v: u128) -> (r: Option<Self>) {
        if v <= 0xFFFF_FFFF {
            Some(v as u32)
        } else {
            None
        }
    }
}

impl RatioInteger for u64 {
    open spec fn value(self) -> nat {
        self as nat
    }

    open spec fn largest() -> nat {
        0xFFFF_FFFF_FFFF_FFFF
    }

    fn widen(self) -> (r: u128) {
        self as u128
    }

    fn narrow(v: u128) -> (r: Option<Self>) {
        if v <= 0xFFFF_FFFF_FFFF_FFFF {
            Some(v as u64)
        } else {
            None
        }
    }
}

impl RatioInteger for u128 {
    open spec fn value(self) -> nat {
        self as nat
    }

    open spec fn largest() -> nat {
        0xFFFF_FFFF_FFFF_FFFF_FFFF_FFFF_FFFF_FFFF
    }

    fn widen(self) -> (r: u128) {
        self
    }

    fn narrow(v: u128) -> (r: Option<Self>) {
        Some(v)
    }
}

/// A number of 32 bits without its sign.
pub open spec fn magnitude(n: i32) -> nat {
    if n < 0 {
        (-n) as nat
    } else {
        n as nat
    }
}

/// A fraction as the multimedia framework holds it: numerator and denominator
/// of 32 bits with a sign. A denominator of zero stands for a missing value.
#[derive(Debug, PartialEq, Eq, Clone, Copy, Structural)]
pub struct AVRationalConverter {
    pub num: i32,
    pub den: i32,
}

/// Errors that can occur when converting to or from an
/// [`AVRationalConverter`].
#[derive(Debug, PartialEq, Eq, Clone, Copy, Structural)]
pub enum AVRationalConversionError {
    /// The denominator was zero: most likely the value is entirely missing.
    DenominatorZero,
    /// Numerator or denominator has no value in the other integer type.
    TryFromRational,
}

impl AVRationalConversionError {
    /// The text of the message.
    pub open spec fn text(&self) -> Seq<char> {
        match *self {
            AVRationalConversionError::DenominatorZero => "zero value denominator"@,
            AVRationalConversionError::TryFromRational =>
                "rational cannot be converted to another numeric type"@,
        }
    }

    /// The message.
    pub fn message(&self) -> (r: &'static str)
        ensures
            r@ == self.text(),
    {
        match *self {
            AVRationalConversionError::DenominatorZero => "zero value denominator",
            AVRationalConversionError::TryFromRational =>
                "rational cannot be converted to another numeric type",
        }
    }
}

impl AVRationalConverter {
    /// The fraction of unsigned integers of the type `T` with the same
    /// value, in lowest terms: none for a denominator of zero, and none for a
    /// negative numerator or denominator, nor for one that the type cannot
    /// hold.
    pub open spec fn unsigned<T: RatioInteger>(self) -> Result<
        (nat, nat),
        AVRationalConversionError,
    > {
        let r = lowest_terms(self.num as nat, self.den as nat);
        if self.den == 0 {
            Err(AVRationalConversionError::DenominatorZero)
        } else if self.num < 0 || self.den < 0 || r.0 > T::largest() || r.1 > T::largest() {
            Err(AVRationalConversionError::TryFromRational)
        } else {
            Ok(r)
        }
    }

    /// The fraction of 32 bits with a sign that has the value of a fraction
    /// of unsigned integers, in lowest terms: none where numerator or
    /// denominator, in lowest terms, is above `i32::MAX`.
    pub open spec fn signed(numer: nat, denom: nat) -> Result<
        AVRationalConverter,
        AVRationalConversionError,
    > {
        let r = lowest_terms(numer, denom);
        if r.0 > i32::MAX || r.1 > i32::MAX {
            Err(AVRationalConversionError::TryFromRational)
        } else {
            Ok(AVRationalConverter { num: r.0 as i32, den: r.1 as i32 })
        }
    }

    /// The fraction of 32 bits with a sign that has the value of `num / den`,
    /// in lowest terms and with a positive denominator: none for a
    /// denominator of zero, and none where 32 bits cannot hold it.
    pub open spec fn normal(num: i32, den: i32) -> Result<Ratio<i32>, AVRationalConversionError> {
        let r = lowest_terms(magnitude(num), magnitude(den));
        let numer = if (num < 0) != (den < 0) {
            -(r.0 as int)
        } else {
            r.0 as int
        };
        if den == 0 {
            Err(AVRationalConversionError::DenominatorZero)
        } else if numer > i32::MAX || r.1 > i32::MAX {
            Err(AVRationalConversionError::TryFromRational)
        } else {
            Ok(Ratio { numer: numer as i32, denom: r.1 as i32 })
        }
    }

    /// Computes [`AVRationalConverter::normal`].
    pub fn normalize(num: i32, den: i32) -> (r: Result<Ratio<i32>, AVRationalConversionError>)
        ensures
            r == Self::normal(num, den),
    {
        if den == 0 {
            return Err(AVRationalConversionError::DenominatorZero);
        }
        let a: u128 = if num < 0 {
            (-(num as i64)) as u128
        } else {
            num as u128
        };
        let b: u128 = if den < 0 {
            (-(den as i64)) as u128
        } else {
            den as u128
        };
        let (n, d) = reduce_u128(a, b);
        proof {
            crate::file::ratio::lemma_lowest_terms_bound(a as nat, b as nat);
        }
        let negative = (num < 0) != (den < 0);
        if d > 0x7FFF_FFFF || (!negative && n > 0x7FFF_FFFF) {
            return Err(AVRationalConversionError::TryFromRational);
        }
        let numer: i32 = if negative {
            (-(n as i64)) as i32
        } else {
            n as i32
        };
        Ok(Ratio { numer, denom: d as i32 })
    }

    /// Try to convert to a [`Ratio`] of 32 bits with a sign, in lowest terms
    /// and with a positive denominator.
    pub fn try_into_ratio(&self) -> (r: Result<Ratio<i32>, AVRationalConversionError>)
        ensures
            r == Self::normal(self.num, self.den),
    {
        Self::normalize(self.num, self.den)
    }

    /// Try to convert from a [`Ratio`] of 32 bits with a sign: the fraction
    /// in lowest terms and with a positive denominator.
    pub fn try_from_ratio(value: Ratio<i32>) -> (r: Result<
        AVRationalConverter,
        AVRationalConversionError,
    >)
        ensures
            r == match Self::normal(value.numer, value.denom) {
                Ok(ratio) => Ok::<AVRationalConverter, AVRationalConversionError>(
                    AVRationalConverter { num: ratio.numer, den: ratio.denom },
                ),
                Err(e) => Err(e),
            },
    {
        match Self::normalize(value.numer, value.denom) {
            Ok(ratio) => Ok(AVRationalConverter { num: ratio.numer, den: ratio.denom }),
            Err(e) => Err(e),
        }
    }

    /// Try to convert to a [`Ratio`] with the given type.
    pub fn try_into_other_ratio<T: RatioInteger>(&self) -> (r: Result<
        Ratio<T>,
        AVRationalConversionError,
    >)
        ensures
            match r {
                Ok(ratio) => self.unsigned::<T>() == Ok::<(nat, nat), AVRationalConversionError>(
                    (ratio.numer.value(), ratio.denom.value()),
                ),
                Err(e) => self.unsigned::<T>() == Err::<(nat, nat), AVRationalConversionError>(e),
            },
    {
        if self.den == 0 {
            return Err(AVRationalConversionError::DenominatorZero);
        }
        if self.num < 0 || self.den < 0 {
            return Err(AVRationalConversionError::TryFromRational);
        }
        let (n, d) = reduce_u128(self.num as u128, self.den as u128);
        match (T::narrow(n), T::narrow(d)) {
            (Some(numer), Some(denom)) => Ok(Ratio { numer, denom }),
            _ => Err(AVRationalConversionError::TryFromRational),
        }
    }

    /// Try to convert from a [`Ratio`] with the given type.
    pub fn try_from_other_ratio<T: RatioInteger>(value: Ratio<T>) -> (r: Result<
        AVRationalConverter,
        AVRationalConversionError,
    >)
        ensures
            r == Self::signed(value.numer.value(), value.denom.value()),
    {
        let (n, d) = reduce_u128(value.numer.widen(), value.denom.widen());
        if n > 0x7FFF_FFFF || d > 0x7FFF_FFFF {
            Err(AVRationalConversionError::TryFromRational)
        } else {
            Ok(AVRationalConverter { num: n as i32, den: d as i32 })
        }
    }
}

} // verus!
