//! Fixed-point decimals with eighteen fractional digits, the representation
//! that ratings averages and completion rates are kept in.
use vstd::prelude::*;

verus! {

/// One whole unit, in atomics.
pub const DECIMAL_FRACTIONAL: u128 = 1_000_000_000_000_000_000u128;

/// A non-negative decimal stored as `atomics / 10^18`.
#[derive(Clone, Copy, Debug, PartialEq, Eq, Structural)]
pub struct Decimal {
    pub atomics: u128,
}

impl Decimal {
    /// Zero.
    pub fn zero() -> (r: Decimal)
        ensures
            r.atomics == 0,
    {
        Decimal { atomics: 0 }
    }

    /// The ratio `numerator / denominator`, rounded down to eighteen digits.
    pub fn from_ratio(numerator: u64, denominator: u64) -> (r: Decimal)
        requires
            denominator > 0,
        ensures
            r.atomics == ratio_atomics(numerator as nat, denominator as nat),
    {
        assert(numerator * DECIMAL_FRACTIONAL <= u64::MAX * DECIMAL_FRACTIONAL) by (nonlinear_arith)
            requires
                numerator <= u64::MAX,
        ;
        let n: u128 = numerator as u128 * DECIMAL_FRACTIONAL;
        Decimal { atomics: n / (denominator as u128) }
    }

    /// The whole number `n`.
    pub fn from_integer(n: u64) -> (r: Decimal)
        ensures
            r.atomics == n * DECIMAL_FRACTIONAL,
    {
        assert(n * DECIMAL_FRACTIONAL <= u64::MAX * DECIMAL_FRACTIONAL) by (nonlinear_arith)
            requires
                n <= u64::MAX,
        ;
        Decimal { atomics: n as u128 * DECIMAL_FRACTIONAL }
    }
}

/// The atomics of `numerator / denominator`.
pub open spec fn ratio_atomics(numerator: nat, denominator: nat) -> nat {
    (numerator * (DECIMAL_FRACTIONAL as nat)) / denominator
}

/// The running average after one more rating: `(average * count + rating) / (count + 1)`,
/// computed with fixed-point multiplication and division, which here is exact up to
/// the final rounding down.
pub open spec fn next_average_atomics(average: nat, count: nat, rating: nat) -> nat {
    (average * count + rating * (DECIMAL_FRACTIONAL as nat)) / (count + 1)
}

/// Whether the running average after one more rating stays within the range of a decimal.
pub open spec fn next_average_fits(average: nat, count: nat, rating: nat) -> bool {
    average * count + rating * DECIMAL_FRACTIONAL <= u128::MAX
}

/// `(average * count + rating) / (count + 1)` on decimals.
pub fn next_average(average: Decimal, count: u64, rating: u64) -> (r: Decimal)
    requires
        count < u64::MAX,
        next_average_fits(average.atomics as nat, count as nat, rating as nat),
    ensures
        r.atomics == next_average_atomics(average.atomics as nat, count as nat, rating as nat),
{
    let ghost a = average.atomics as nat;
    assert(a * count <= a * count + rating * DECIMAL_FRACTIONAL) by (nonlinear_arith)
        requires
            rating >= 0,
    ;
    let sum_existing: u128 = average.atomics * (count as u128);
    let added: u128 = (rating as u128) * DECIMAL_FRACTIONAL;
    let total: u128 = sum_existing + added;
    Decimal { atomics: total / ((count as u128) + 1) }
}

} // verus!
