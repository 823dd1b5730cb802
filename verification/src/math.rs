//! Fixed-point arithmetic on 64-bit amounts.
//!
//! Every product of two amounts is formed in 128 bits, where it cannot
//! overflow, and only then divided back down. Each function says which way
//! it rounds; a quotient that no longer fits in 64 bits, or a zero divisor,
//! is reported as [`AmmError::CurveError`].

use crate::error::AmmError;
use vstd::arithmetic::div_mod::lemma_fundamental_div_mod;
use vstd::arithmetic::div_mod::lemma_mod_bound;
use vstd::prelude::*;

verus! {

/// Basis points in a whole: a fee of `BPS_DENOMINATOR` takes everything.
pub const BPS_DENOMINATOR: u16 = 10000;

/// `a * b / d`, rounded down.
pub open spec fn floor_mul_div(a: int, b: int, d: int) -> int
    recommends
        d > 0,
{
    (a * b) / d
}

/// `a * b / d`, rounded up.
pub open spec fn ceil_mul_div(a: int, b: int, d: int) -> int
    recommends
        d > 0,
{
    (a * b + d - 1) / d
}

/// A quotient as a 64-bit amount: an error where the divisor is zero or the
/// quotient does not fit.
pub open spec fn narrowed(q: int, d: int) -> Result<u64, AmmError> {
    if d == 0 || q > u64::MAX {
        Err(AmmError::CurveError)
    } else {
        Ok(q as u64)
    }
}

/// `a + b`, or an error where the sum exceeds 64 bits.
pub open spec fn sum(a: u64, b: u64) -> Result<u64, AmmError> {
    if a + b > u64::MAX {
        Err(AmmError::CurveError)
    } else {
        Ok((a + b) as u64)
    }
}

/// `a - b`, or an error where `b` exceeds `a`.
pub open spec fn difference(a: u64, b: u64) -> Result<u64, AmmError> {
    if b > a {
        Err(AmmError::CurveError)
    } else {
        Ok((a - b) as u64)
    }
}

/// The product of two 64-bit amounts fits in 128 bits, with room to add a
/// third 64-bit amount.
pub proof fn lemma_product_fits(a: u64, b: u64)
    ensures
        0 <= a * b <= 0xffff_ffff_ffff_ffff * 0xffff_ffff_ffff_ffff,
        a * b + u64::MAX <= u128::MAX,
{
    assert(0 <= a * b <= 0xffff_ffff_ffff_ffff * 0xffff_ffff_ffff_ffff) by (nonlinear_arith)
        requires
            0 <= a <= 0xffff_ffff_ffff_ffff,
            0 <= b <= 0xffff_ffff_ffff_ffff,
    ;
}

/// Division with remainder, for a non-negative dividend: the quotient `x / d`
/// is the one integer `q` with `q * d <= x < (q + 1) * d`.
pub proof fn lemma_floor_bounds(x: int, d: int)
    requires
        0 <= x,
        0 < d,
    ensures
        0 <= x / d,
        (x / d) * d <= x < (x / d + 1) * d,
        (x / d) * d + x % d == x,
        0 <= x % d < d,
{
    lemma_fundamental_div_mod(x, d);
    lemma_mod_bound(x, d);
    let q = x / d;
    assert(d * q == q * d) by (nonlinear_arith);
    assert((q + 1) * d == q * d + d) by (nonlinear_arith);
    assert(0 <= q) by (nonlinear_arith)
        requires
            q * d + d > 0,
            d > 0,
    ;
}

/// The quotient is the only integer between the bounds of
/// [`lemma_floor_bounds`].
pub proof fn lemma_floor_unique(x: int, d: int, q: int)
    requires
        0 < d,
        q * d <= x < (q + 1) * d,
    ensures
        x / d == q,
{
    lemma_fundamental_div_mod(x, d);
    lemma_mod_bound(x, d);
    let p = x / d;
    assert(d * p == p * d) by (nonlinear_arith);
    assert(p == q) by (nonlinear_arith)
        requires
            0 < d,
            q * d <= x < (q + 1) * d,
            p * d <= x < p * d + d,
    ;
}

/// Rounding up: `(x + d - 1) / d` is the least integer `c` with `c * d >= x`.
pub proof fn lemma_ceil_bounds(x: int, d: int)
    requires
        0 <= x,
        0 < d,
    ensures
        0 <= (x + d - 1) / d,
        ((x + d - 1) / d - 1) * d < x <= ((x + d - 1) / d) * d,
        x / d <= (x + d - 1) / d <= x / d + 1,
        x % d == 0 ==> (x + d - 1) / d == x / d,
        x % d != 0 ==> (x + d - 1) / d == x / d + 1,
{
    lemma_floor_bounds(x, d);
    lemma_floor_bounds(x + d - 1, d);
    let q = x / d;
    let c = (x + d - 1) / d;
    assert((c - 1) * d == c * d - d) by (nonlinear_arith);
    assert((c + 1) * d == c * d + d) by (nonlinear_arith);
    assert((q + 1) * d == q * d + d) by (nonlinear_arith);
    if x % d == 0 {
        assert(q * d <= x + d - 1 < (q + 1) * d);
        lemma_floor_unique(x + d - 1, d, q);
    } else {
        assert((q + 2) * d == q * d + d + d) by (nonlinear_arith);
        assert((q + 1) * d <= x + d - 1 < (q + 2) * d);
        lemma_floor_unique(x + d - 1, d, q + 1);
    }
}

/// `a + b` without wraparound.
///
/// Fails with [`AmmError::CurveError`] where the sum exceeds 64 bits.
pub fn checked_sum(a: u64, b: u64) -> (res: Result<u64, AmmError>)
    ensures
        res == sum(a, b),
{
    a.checked_add(b).ok_or(AmmError::CurveError)
}

/// `a - b` without wraparound.
///
/// Fails with [`AmmError::CurveError`] where `b` exceeds `a`.
pub fn checked_difference(a: u64, b: u64) -> (res: Result<u64, AmmError>)
    ensures
        res == difference(a, b),
{
    a.checked_sub(b).ok_or(AmmError::CurveError)
}

/// `a * b / d` rounded down, the product formed in 128 bits.
///
/// Fails with [`AmmError::CurveError`] where `d` is zero or the quotient
/// exceeds 64 bits.
pub fn mul_div_floor(a: u64, b: u64, d: u64) -> (res: Result<u64, AmmError>)
    ensures
        res == narrowed(floor_mul_div(a as int, b as int, d as int), d as int),
{
    if d == 0 {
        return Err(AmmError::CurveError);
    }
    proof {
        lemma_product_fits(a, b);
    }
    let product: u128 = (a as u128) * (b as u128);
    let quotient: u128 = product / (d as u128);
    if quotient > u64::MAX as u128 {
        Err(AmmError::CurveError)
    } else {
        Ok(quotient as u64)
    }
}

/// `a * b / d` rounded up, the product formed in 128 bits.
///
/// Fails with [`AmmError::CurveError`] where `d` is zero or the quotient
/// exceeds 64 bits.
pub fn mul_div_ceil(a: u64, b: u64, d: u64) -> (res: Result<u64, AmmError>)
    ensures
        res == narrowed(ceil_mul_div(a as int, b as int, d as int), d as int),
{
    if d == 0 {
        return Err(AmmError::CurveError);
    }
    proof {
        lemma_product_fits(a, b);
    }
    let product: u128 = (a as u128) * (b as u128);
    let padded: u128 = product + (d as u128 - 1);
    let quotient: u128 = padded / (d as u128);
    if quotient > u64::MAX as u128 {
        Err(AmmError::CurveError)
    } else {
        Ok(quotient as u64)
    }
}

/// The integer square root of a 128-bit value: the greatest `root` whose
/// square does not exceed `n`. It always fits in 64 bits.
pub fn isqrt(n: u128) -> (root: u64)
    ensures
        root * root <= n < (root + 1) * (root + 1),
{
    let mut low: u128 = 0;
    let mut high: u128 = 0x1_0000_0000_0000_0000;
    assert(low * low <= n < high * high) by (nonlinear_arith)
        requires
            low == 0,
            high == 0x1_0000_0000_0000_0000,
            n <= 0xffff_ffff_ffff_ffff_ffff_ffff_ffff_ffff,
    ;
    while high - low > 1
        invariant
            low < high <= 0x1_0000_0000_0000_0000,
            low * low <= n < high * high,
        decreases high - low,
    {
        let middle: u128 = low + (high - low) / 2;
        assert(middle * middle <= 0xffff_ffff_ffff_ffff * 0xffff_ffff_ffff_ffff)
            by (nonlinear_arith)
            requires
                0 <= middle <= 0xffff_ffff_ffff_ffff,
        ;
        let square: u128 = middle * middle;
        if square <= n {
            low = middle;
        } else {
            high = middle;
        }
    }
    low as u64
}

} // verus!
