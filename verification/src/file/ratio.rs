//! Fractions of unsigned integers, as plain numerator and denominator.
use vstd::prelude::*;

verus! {

/// A fraction `numer / denom`. The fields hold what they are given: nothing
/// reduces them, and two fractions are the same only if both fields agree.
#[derive(Debug, PartialEq, Eq, Clone, Copy, Hash, Structural)]
pub struct Ratio<T> {
    pub numer: T,
    pub denom: T,
}

/// Greatest common divisor, by Euclid's rule.
pub open spec fn gcd(a: nat, b: nat) -> nat
    decreases b,
{
    if b == 0 {
        a
    } else {
        gcd(b, a % b)
    }
}

/// The fraction `numer / denom` in lowest terms.
pub open spec fn lowest_terms(numer: nat, denom: nat) -> (nat, nat) {
    let g = gcd(numer, denom);
    if g == 0 {
        (numer, denom)
    } else {
        (numer / g, denom / g)
    }
}

/// A fraction in lowest terms has no larger numerator nor denominator.
pub proof fn lemma_lowest_terms_bound(numer: nat, denom: nat)
    ensures
        lowest_terms(numer, denom).0 <= numer,
        lowest_terms(numer, denom).1 <= denom,
{
    let g = gcd(numer, denom);
    if g != 0 {
        assert(numer / g <= numer) by (nonlinear_arith)
            requires
                g > 0,
        ;
        assert(denom / g <= denom) by (nonlinear_arith)
            requires
                g > 0,
        ;
    }
}

/// Computes [`gcd`].
pub fn gcd_u128(a: u128, b: u128) -> (r: u128)
    ensures
        r == gcd(a as nat, b as nat),
{
    let mut x: u128 = a;
    let mut y: u128 = b;
    while y != 0
        invariant
            gcd(x as nat, y as nat) == gcd(a as nat, b as nat),
        decreases y,
    {
        let t: u128 = x % y;
        x = y;
        y = t;
    }
    x
}

/// Computes [`lowest_terms`].
pub fn reduce_u128(numer: u128, denom: u128) -> (r: (u128, u128))
    ensures
        (r.0 as nat, r.1 as nat) == lowest_terms(numer as nat, denom as nat),
{
    let g: u128 = gcd_u128(numer, denom);
    if g == 0 {
        (numer, denom)
    } else {
        (numer / g, denom / g)
    }
}

} // verus!
