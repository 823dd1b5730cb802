//! The constant-product curve: how many units of each asset move on a
//! deposit, a withdrawal and a swap, as functions of the reserves alone.
//!
//! A depositor pays the ceiling of their share of each reserve and a
//! withdrawer receives the floor of theirs, so that neither gains by rounding.
//! A swap takes the fee off the input, rounded down, and leaves behind the
//! floor of the output reserve that would preserve the product. The product of
//! the reserves therefore moves by the fee's gain less the remainder of that
//! division: it can fall short of its old value by less than one unit of the
//! output asset, and holds or grows wherever the division is exact.

use crate::error::AmmError;
use crate::math::ceil_mul_div;
use crate::math::floor_mul_div;
use crate::math::lemma_ceil_bounds;
use crate::math::lemma_floor_bounds;
use crate::math::lemma_floor_unique;
use crate::math::mul_div_ceil;
use crate::math::mul_div_floor;
use crate::math::narrowed;
use crate::math::BPS_DENOMINATOR;
use vstd::prelude::*;

verus! {

/// An amount of each of the pool's two assets.
#[derive(Clone, Copy, Debug, PartialEq, Eq, Structural)]
pub struct XYAmounts {
    pub x: u64,
    pub y: u64,
}

/// The two legs of a swap.
#[derive(Clone, Copy, Debug, PartialEq, Eq, Structural)]
pub struct SwapResult {
    /// Taken from the caller and kept by the pool, fee included.
    pub deposit: u64,
    /// Paid out to the caller in the other asset.
    pub withdraw: u64,
}

/// The product of the two reserves.
pub open spec fn product(x: int, y: int) -> int {
    x * y
}

/// The part of `amount_in` that the fee takes: `fee_bps` hundredths of a
/// percent, rounded down.
pub open spec fn fee_taken(amount_in: int, fee_bps: int) -> int {
    (amount_in * fee_bps) / (BPS_DENOMINATOR as int)
}

/// What is left of `amount_in` to trade along the curve.
pub open spec fn amount_after_fee(amount_in: int, fee_bps: int) -> int {
    amount_in - fee_taken(amount_in, fee_bps)
}

/// The output reserve that a swap leaves behind: the old product divided by
/// the input reserve grown by `effective_in`, rounded down.
pub open spec fn reserve_out_kept(reserve_in: int, reserve_out: int, effective_in: int) -> int {
    product(reserve_in, reserve_out) / (reserve_in + effective_in)
}

/// What the first deposit into an empty pool moves: exactly the two maxima.
pub open spec fn initial_deposit(max_x: u64, max_y: u64) -> XYAmounts {
    XYAmounts { x: max_x, y: max_y }
}

/// What a deposit for `lp_wanted` shares moves into a pool with the given
/// reserves and share supply: the share of each reserve, rounded up.
pub open spec fn proportional_deposit(
    reserve_x: u64,
    reserve_y: u64,
    lp_supply: u64,
    lp_wanted: u64,
) -> Result<XYAmounts, AmmError> {
    let x = narrowed(
        ceil_mul_div(lp_wanted as int, reserve_x as int, lp_supply as int),
        lp_supply as int,
    );
    let y = narrowed(
        ceil_mul_div(lp_wanted as int, reserve_y as int, lp_supply as int),
        lp_supply as int,
    );
    if x is Ok && y is Ok {
        Ok(XYAmounts { x: x->Ok_0, y: y->Ok_0 })
    } else {
        Err(AmmError::CurveError)
    }
}

/// What burning `lp_burned` shares moves out of a pool with the given
/// reserves and share supply: the share of each reserve, rounded down.
pub open spec fn proportional_withdraw(
    reserve_x: u64,
    reserve_y: u64,
    lp_supply: u64,
    lp_burned: u64,
) -> Result<XYAmounts, AmmError> {
    let x = narrowed(
        floor_mul_div(lp_burned as int, reserve_x as int, lp_supply as int),
        lp_supply as int,
    );
    let y = narrowed(
        floor_mul_div(lp_burned as int, reserve_y as int, lp_supply as int),
        lp_supply as int,
    );
    if x is Ok && y is Ok {
        Ok(XYAmounts { x: x->Ok_0, y: y->Ok_0 })
    } else {
        Err(AmmError::CurveError)
    }
}

/// What a swap of `amount_in` moves, given the reserve of the asset coming in,
/// the reserve of the asset going out and the fee.
///
/// The checks, in the order in which the first failure decides:
/// a zero `amount_in` is an invalid amount; a fee above the whole, an input
/// reserve that outgrows 64 bits, a division by zero and an output reserve
/// that would be emptied are curve errors; a trade too small to move a single
/// unit out is an invalid amount.
pub open spec fn swap_output(
    reserve_in: u64,
    reserve_out: u64,
    amount_in: u64,
    fee_bps: u16,
) -> Result<SwapResult, AmmError> {
    let effective_in = amount_after_fee(amount_in as int, fee_bps as int);
    let kept = reserve_out_kept(reserve_in as int, reserve_out as int, effective_in);
    if amount_in == 0 {
        Err(AmmError::InvalidAmount)
    } else if fee_bps > BPS_DENOMINATOR || reserve_in + effective_in > u64::MAX || reserve_in
        + effective_in == 0 || kept == 0 {
        Err(AmmError::CurveError)
    } else if reserve_out - kept == 0 {
        Err(AmmError::InvalidAmount)
    } else {
        Ok(SwapResult { deposit: amount_in, withdraw: (reserve_out - kept) as u64 })
    }
}

/// The fee never exceeds the amount it is taken from.
pub proof fn lemma_fee_bounded(amount_in: u64, fee_bps: u16)
    requires
        fee_bps <= BPS_DENOMINATOR,
    ensures
        0 <= fee_taken(amount_in as int, fee_bps as int) <= amount_in,
        0 <= amount_after_fee(amount_in as int, fee_bps as int) <= amount_in,
        fee_bps == 0 ==> fee_taken(amount_in as int, fee_bps as int) == 0,
{
    let a = amount_in as int;
    let f = fee_bps as int;
    assert(0 <= a * f <= a * 10000) by (nonlinear_arith)
        requires
            0 <= a,
            0 <= f <= 10000,
    ;
    lemma_floor_bounds(a * f, 10000);
    if f == 0 {
        assert(a * f == 0) by (nonlinear_arith)
            requires
                f == 0,
        ;
    }
}

/// The output reserve that a swap keeps is never more than the reserve it
/// started from.
pub proof fn lemma_kept_bounded(reserve_in: u64, reserve_out: u64, effective_in: int)
    requires
        0 <= effective_in,
        0 < reserve_in + effective_in,
    ensures
        0 <= reserve_out_kept(reserve_in as int, reserve_out as int, effective_in) <= reserve_out,
{
    let n = reserve_in + effective_in;
    let k = product(reserve_in as int, reserve_out as int);
    assert(0 <= k <= reserve_out * n) by (nonlinear_arith)
        requires
            k == reserve_in * reserve_out,
            n == reserve_in + effective_in,
            0 <= reserve_in,
            0 <= reserve_out,
            0 <= effective_in,
    ;
    lemma_floor_bounds(k, n);
    let q = k / n;
    assert(q <= reserve_out) by (nonlinear_arith)
        requires
            q * n <= k,
            k <= reserve_out * n,
            0 < n,
    ;
}

/// The amounts of the first deposit into an empty pool: no ratio exists yet,
/// so the deposit takes exactly `max_x` and `max_y` and thereby sets the
/// pool's first price.
pub fn compute_initial_deposit(max_x: u64, max_y: u64) -> (amounts: XYAmounts)
    ensures
        amounts == initial_deposit(max_x, max_y),
{
    XYAmounts { x: max_x, y: max_y }
}

/// The amounts that a deposit for `lp_wanted` shares must bring into a pool
/// that already holds liquidity: `ceil(lp_wanted * reserve / lp_supply)` of
/// each asset, so that the pool never issues more than it receives.
///
/// Fails with [`AmmError::CurveError`] where `lp_supply` is zero or an amount
/// exceeds 64 bits. On success each amount is the share `lp_wanted /
/// lp_supply` of its reserve, or less than one unit above it.
pub fn compute_proportional_deposit(
    reserve_x: u64,
    reserve_y: u64,
    lp_supply: u64,
    lp_wanted: u64,
) -> (res: Result<XYAmounts, AmmError>)
    ensures
        res == proportional_deposit(reserve_x, reserve_y, lp_supply, lp_wanted),
        lp_supply == 0 ==> res is Err,
        res matches Ok(amounts) ==> ({
            &&& (amounts.x - 1) * lp_supply < lp_wanted * reserve_x <= amounts.x * lp_supply
            &&& (amounts.y - 1) * lp_supply < lp_wanted * reserve_y <= amounts.y * lp_supply
        }),
{
    let x: u64 = mul_div_ceil(lp_wanted, reserve_x, lp_supply)?;
    let y: u64 = mul_div_ceil(lp_wanted, reserve_y, lp_supply)?;
    proof {
        lemma_deposit_proportional(reserve_x, lp_supply, lp_wanted);
        lemma_deposit_proportional(reserve_y, lp_supply, lp_wanted);
    }
    Ok(XYAmounts { x, y })
}

/// The amounts that burning `lp_burned` shares releases:
/// `floor(lp_burned * reserve / lp_supply)` of each asset, so that the pool
/// never pays out more than the burned share is worth.
///
/// Fails with [`AmmError::CurveError`] where `lp_supply` is zero or an amount
/// exceeds 64 bits. On success each amount is the share `lp_burned /
/// lp_supply` of its reserve, or less than one unit below it.
pub fn compute_proportional_withdraw(
    reserve_x: u64,
    reserve_y: u64,
    lp_supply: u64,
    lp_burned: u64,
) -> (res: Result<XYAmounts, AmmError>)
    ensures
        res == proportional_withdraw(reserve_x, reserve_y, lp_supply, lp_burned),
        lp_supply == 0 ==> res is Err,
        res matches Ok(amounts) ==> ({
            &&& amounts.x * lp_supply <= lp_burned * reserve_x < (amounts.x + 1) * lp_supply
            &&& amounts.y * lp_supply <= lp_burned * reserve_y < (amounts.y + 1) * lp_supply
        }),
{
    let x: u64 = mul_div_floor(lp_burned, reserve_x, lp_supply)?;
    let y: u64 = mul_div_floor(lp_burned, reserve_y, lp_supply)?;
    proof {
        lemma_withdraw_proportional(reserve_x, lp_supply, lp_burned);
        lemma_withdraw_proportional(reserve_y, lp_supply, lp_burned);
    }
    Ok(XYAmounts { x, y })
}

/// The two legs of a swap of `amount_in` against the given reserves.
///
/// The fee comes off the input first:
/// `effective_in = amount_in - floor(amount_in * fee_bps / 10000)`. The caller
/// receives `reserve_out - floor(reserve_in * reserve_out / (reserve_in +
/// effective_in))` and pays the whole of `amount_in`, which the pool keeps.
///
/// Fails with [`AmmError::InvalidAmount`] where either leg would be zero, and
/// with [`AmmError::CurveError`] where the fee exceeds the whole, the grown
/// input reserve exceeds 64 bits or is zero, or nothing would be left of the
/// output reserve.
pub fn compute_swap_output(
    reserve_in: u64,
    reserve_out: u64,
    amount_in: u64,
    fee_bps: u16,
) -> (res: Result<SwapResult, AmmError>)
    ensures
        res == swap_output(reserve_in, reserve_out, amount_in, fee_bps),
        res matches Ok(legs) ==> ({
            &&& reserve_in > 0
            &&& legs.deposit == amount_in
            &&& 0 < legs.withdraw < reserve_out
            &&& legs.withdraw == reserve_out - reserve_out_kept(
                reserve_in as int,
                reserve_out as int,
                amount_after_fee(amount_in as int, fee_bps as int),
            )
            &&& product(reserve_in + legs.deposit, reserve_out - legs.withdraw + 1) > product(
                reserve_in as int,
                reserve_out as int,
            )
        }),
{
    if amount_in == 0 {
        return Err(AmmError::InvalidAmount);
    }
    if fee_bps > BPS_DENOMINATOR {
        return Err(AmmError::CurveError);
    }
    proof {
        lemma_fee_bounded(amount_in, fee_bps);
    }
    let fee: u64 = mul_div_floor(amount_in, fee_bps as u64, BPS_DENOMINATOR as u64)?;
    let effective_in: u64 = amount_in - fee;
    let pool_in: u64 = match reserve_in.checked_add(effective_in) {
        Some(sum) => sum,
        None => {
            return Err(AmmError::CurveError);
        },
    };
    if pool_in == 0 {
        return Err(AmmError::CurveError);
    }
    proof {
        lemma_kept_bounded(reserve_in, reserve_out, effective_in as int);
    }
    let kept: u64 = mul_div_floor(reserve_in, reserve_out, pool_in)?;
    if kept == 0 {
        return Err(AmmError::CurveError);
    }
    let withdraw: u64 = reserve_out - kept;
    if withdraw == 0 {
        return Err(AmmError::InvalidAmount);
    }
    proof {
        lemma_swap_within_one_unit(reserve_in, reserve_out, amount_in, fee_bps);
    }
    Ok(SwapResult { deposit: amount_in, withdraw })
}

/// Proportionality of a deposit: the amount owed for `lp_wanted` shares,
/// taken as a fraction of the reserve, equals `lp_wanted / lp_supply` or
/// exceeds it by less than one unit of the asset.
pub proof fn lemma_deposit_proportional(reserve: u64, lp_supply: u64, lp_wanted: u64)
    requires
        lp_supply > 0,
    ensures
        ({
            let owed = ceil_mul_div(lp_wanted as int, reserve as int, lp_supply as int);
            &&& 0 <= owed
            &&& (owed - 1) * lp_supply < lp_wanted * reserve <= owed * lp_supply
            &&& lp_wanted > 0 && reserve > 0 ==> owed > 0
        }),
{
    let p = lp_wanted * reserve;
    assert(0 <= p) by (nonlinear_arith)
        requires
            p == lp_wanted * reserve,
    ;
    lemma_ceil_bounds(p, lp_supply as int);
    if lp_wanted > 0 && reserve > 0 {
        assert(0 < p) by (nonlinear_arith)
            requires
                p == lp_wanted * reserve,
                lp_wanted > 0,
                reserve > 0,
        ;
        let owed = ceil_mul_div(lp_wanted as int, reserve as int, lp_supply as int);
        assert(owed > 0) by (nonlinear_arith)
            requires
                0 < p <= owed * lp_supply,
                lp_supply > 0,
        ;
    }
}

/// Proportionality of a withdrawal: the amount released for `lp_burned`
/// shares, taken as a fraction of the reserve, equals `lp_burned / lp_supply`
/// or falls short of it by less than one unit of the asset. Burning no more
/// than the supply never releases more than the reserve, and burning less
/// than the supply leaves some of a reserve that held any.
pub proof fn lemma_withdraw_proportional(reserve: u64, lp_supply: u64, lp_burned: u64)
    requires
        lp_supply > 0,
    ensures
        ({
            let released = floor_mul_div(lp_burned as int, reserve as int, lp_supply as int);
            &&& 0 <= released
            &&& released * lp_supply <= lp_burned * reserve < (released + 1) * lp_supply
            &&& lp_burned <= lp_supply ==> released <= reserve
            &&& lp_burned == lp_supply ==> released == reserve
            &&& lp_burned < lp_supply && reserve > 0 ==> released < reserve
        }),
{
    let p = lp_burned * reserve;
    let s = lp_supply as int;
    assert(0 <= p) by (nonlinear_arith)
        requires
            p == lp_burned * reserve,
    ;
    lemma_floor_bounds(p, s);
    let released = p / s;
    if lp_burned <= lp_supply {
        assert(released <= reserve) by (nonlinear_arith)
            requires
                released * s <= p,
                p == lp_burned * reserve,
                lp_burned <= s,
                0 < s,
                0 <= reserve,
        ;
    }
    if lp_burned == lp_supply {
        assert(reserve * s <= p < (reserve + 1) * s) by (nonlinear_arith)
            requires
                p == s * reserve,
                0 < s,
        ;
        lemma_floor_unique(p, s, reserve as int);
    }
    if lp_burned < lp_supply && reserve > 0 {
        assert(released < reserve) by (nonlinear_arith)
            requires
                released * s <= p,
                p == lp_burned * reserve,
                lp_burned < s,
                0 < reserve,
        ;
    }
}

/// A deposit never dilutes the shares already outstanding: each reserve per
/// share is, after the deposit, at least what it was before.
pub proof fn lemma_deposit_keeps_share_value(reserve: u64, lp_supply: u64, lp_wanted: u64)
    requires
        lp_supply > 0,
    ensures
        ({
            let owed = ceil_mul_div(lp_wanted as int, reserve as int, lp_supply as int);
            (reserve + owed) * lp_supply >= reserve * (lp_supply + lp_wanted)
        }),
{
    let owed = ceil_mul_div(lp_wanted as int, reserve as int, lp_supply as int);
    lemma_deposit_proportional(reserve, lp_supply, lp_wanted);
    assert((reserve + owed) * lp_supply >= reserve * (lp_supply + lp_wanted)) by (nonlinear_arith)
        requires
            lp_wanted * reserve <= owed * lp_supply,
    ;
}

/// A withdrawal never takes from the shares that stay outstanding: each
/// reserve per share is, after the withdrawal, at least what it was before.
pub proof fn lemma_withdraw_keeps_share_value(reserve: u64, lp_supply: u64, lp_burned: u64)
    requires
        lp_supply > 0,
        lp_burned <= lp_supply,
    ensures
        ({
            let released = floor_mul_div(lp_burned as int, reserve as int, lp_supply as int);
            (reserve - released) * lp_supply >= reserve * (lp_supply - lp_burned)
        }),
{
    let released = floor_mul_div(lp_burned as int, reserve as int, lp_supply as int);
    lemma_withdraw_proportional(reserve, lp_supply, lp_burned);
    assert((reserve - released) * lp_supply >= reserve * (lp_supply - lp_burned))
        by (nonlinear_arith)
        requires
            released * lp_supply <= lp_burned * reserve,
    ;
}

/// How a swap moves the product of the reserves, exactly: the fee adds its
/// amount times the output reserve kept, and the rounding of that reserve
/// takes away the remainder of the division.
pub proof fn lemma_swap_product_change(
    reserve_in: u64,
    reserve_out: u64,
    amount_in: u64,
    fee_bps: u16,
)
    requires
        swap_output(reserve_in, reserve_out, amount_in, fee_bps) is Ok,
    ensures
        ({
            let legs = swap_output(reserve_in, reserve_out, amount_in, fee_bps)->Ok_0;
            let fee = fee_taken(amount_in as int, fee_bps as int);
            let effective_in = amount_after_fee(amount_in as int, fee_bps as int);
            let before = product(reserve_in as int, reserve_out as int);
            let after = product(reserve_in + legs.deposit, reserve_out - legs.withdraw);
            after == before + fee * (reserve_out - legs.withdraw) - before % (reserve_in
                + effective_in)
        }),
{
    let fee = fee_taken(amount_in as int, fee_bps as int);
    let effective_in = amount_after_fee(amount_in as int, fee_bps as int);
    let n = reserve_in + effective_in;
    let before = product(reserve_in as int, reserve_out as int);
    let kept = reserve_out_kept(reserve_in as int, reserve_out as int, effective_in);
    lemma_fee_bounded(amount_in, fee_bps);
    lemma_kept_bounded(reserve_in, reserve_out, effective_in);
    assert(0 <= before) by (nonlinear_arith)
        requires
            before == reserve_in * reserve_out,
    ;
    lemma_floor_bounds(before, n);
    assert((n + fee) * kept == kept * n + fee * kept) by (nonlinear_arith);
}

/// A swap trades against reserves that both hold something, and leaves
/// something of the output reserve. It lowers the product of the reserves by
/// less than one unit of the output asset: had the pool kept one unit more,
/// the product would have grown.
pub proof fn lemma_swap_within_one_unit(
    reserve_in: u64,
    reserve_out: u64,
    amount_in: u64,
    fee_bps: u16,
)
    requires
        swap_output(reserve_in, reserve_out, amount_in, fee_bps) is Ok,
    ensures
        ({
            let legs = swap_output(reserve_in, reserve_out, amount_in, fee_bps)->Ok_0;
            &&& reserve_in > 0
            &&& legs.deposit == amount_in
            &&& 0 < legs.withdraw < reserve_out
            &&& product(reserve_in + legs.deposit, reserve_out - legs.withdraw + 1) > product(
                reserve_in as int,
                reserve_out as int,
            )
        }),
{
    let fee = fee_taken(amount_in as int, fee_bps as int);
    let effective_in = amount_after_fee(amount_in as int, fee_bps as int);
    let n = reserve_in + effective_in;
    let before = product(reserve_in as int, reserve_out as int);
    let kept = reserve_out_kept(reserve_in as int, reserve_out as int, effective_in);
    lemma_fee_bounded(amount_in, fee_bps);
    lemma_kept_bounded(reserve_in, reserve_out, effective_in);
    assert(0 <= before) by (nonlinear_arith)
        requires
            before == reserve_in * reserve_out,
    ;
    lemma_floor_bounds(before, n);
    assert((n + fee) * (kept + 1) >= (kept + 1) * n) by (nonlinear_arith)
        requires
            0 <= fee,
            0 <= kept,
    ;
    assert(reserve_in > 0) by (nonlinear_arith)
        requires
            before == reserve_in * reserve_out,
            kept * n <= before,
            0 < kept,
            0 < n,
    ;
}

/// The product of the reserves does not decrease in a swap whose fee makes up
/// for the rounding: that is, where the fee times the output reserve kept is
/// at least the remainder of the division. It strictly increases where the
/// first exceeds the second.
pub proof fn lemma_swap_product_non_decreasing(
    reserve_in: u64,
    reserve_out: u64,
    amount_in: u64,
    fee_bps: u16,
)
    requires
        swap_output(reserve_in, reserve_out, amount_in, fee_bps) is Ok,
        fee_taken(amount_in as int, fee_bps as int) * reserve_out_kept(
            reserve_in as int,
            reserve_out as int,
            amount_after_fee(amount_in as int, fee_bps as int),
        ) >= product(reserve_in as int, reserve_out as int) % (reserve_in + amount_after_fee(
            amount_in as int,
            fee_bps as int,
        )),
    ensures
        ({
            let legs = swap_output(reserve_in, reserve_out, amount_in, fee_bps)->Ok_0;
            let effective_in = amount_after_fee(amount_in as int, fee_bps as int);
            let gain = fee_taken(amount_in as int, fee_bps as int) * reserve_out_kept(
                reserve_in as int,
                reserve_out as int,
                effective_in,
            );
            let before = product(reserve_in as int, reserve_out as int);
            let after = product(reserve_in + legs.deposit, reserve_out - legs.withdraw);
            &&& after >= before
            &&& gain > before % (reserve_in + effective_in) ==> after > before
        }),
{
    let effective_in = amount_after_fee(amount_in as int, fee_bps as int);
    let kept = reserve_out_kept(reserve_in as int, reserve_out as int, effective_in);
    let legs = swap_output(reserve_in, reserve_out, amount_in, fee_bps)->Ok_0;
    lemma_fee_bounded(amount_in, fee_bps);
    lemma_kept_bounded(reserve_in, reserve_out, effective_in);
    assert(reserve_out - legs.withdraw == kept);
    lemma_swap_product_change(reserve_in, reserve_out, amount_in, fee_bps);
}

/// Where the division that yields the output reserve is exact, a swap never
/// lowers the product of the reserves, and raises it as soon as any fee is
/// taken.
pub proof fn lemma_swap_exact_division(
    reserve_in: u64,
    reserve_out: u64,
    amount_in: u64,
    fee_bps: u16,
)
    requires
        swap_output(reserve_in, reserve_out, amount_in, fee_bps) is Ok,
        product(reserve_in as int, reserve_out as int) % (reserve_in + amount_after_fee(
            amount_in as int,
            fee_bps as int,
        )) == 0,
    ensures
        ({
            let legs = swap_output(reserve_in, reserve_out, amount_in, fee_bps)->Ok_0;
            let before = product(reserve_in as int, reserve_out as int);
            let after = product(reserve_in + legs.deposit, reserve_out - legs.withdraw);
            &&& after >= before
            &&& fee_taken(amount_in as int, fee_bps as int) > 0 ==> after > before
            &&& fee_taken(amount_in as int, fee_bps as int) == 0 ==> after == before
        }),
{
    let fee = fee_taken(amount_in as int, fee_bps as int);
    let effective_in = amount_after_fee(amount_in as int, fee_bps as int);
    let kept = reserve_out_kept(reserve_in as int, reserve_out as int, effective_in);
    let legs = swap_output(reserve_in, reserve_out, amount_in, fee_bps)->Ok_0;
    lemma_fee_bounded(amount_in, fee_bps);
    lemma_kept_bounded(reserve_in, reserve_out, effective_in);
    assert(reserve_out - legs.withdraw == kept);
    lemma_swap_product_change(reserve_in, reserve_out, amount_in, fee_bps);
    assert(fee * kept >= 0 && (fee > 0 ==> fee * kept > 0) && (fee == 0 ==> fee * kept == 0))
        by (nonlinear_arith)
        requires
            0 <= fee,
            0 < kept,
    ;
}

/// Without a fee and without rounding loss a swap leaves the product of the
/// reserves unchanged.
pub proof fn lemma_swap_zero_fee_exact(reserve_in: u64, reserve_out: u64, amount_in: u64)
    requires
        swap_output(reserve_in, reserve_out, amount_in, 0) is Ok,
        product(reserve_in as int, reserve_out as int) % (reserve_in + amount_in) == 0,
    ensures
        ({
            let legs = swap_output(reserve_in, reserve_out, amount_in, 0)->Ok_0;
            product(reserve_in + legs.deposit, reserve_out - legs.withdraw) == product(
                reserve_in as int,
                reserve_out as int,
            )
        }),
{
    lemma_fee_bounded(amount_in, 0);
    lemma_swap_exact_division(reserve_in, reserve_out, amount_in, 0);
}

/// Round trip: a deposit for `lp` shares followed at once by the burning of
/// the same `lp` shares returns no more of either asset than was paid in.
pub proof fn lemma_round_trip(reserve_x: u64, reserve_y: u64, lp_supply: u64, lp: u64)
    requires
        proportional_deposit(reserve_x, reserve_y, lp_supply, lp) is Ok,
        reserve_x + proportional_deposit(reserve_x, reserve_y, lp_supply, lp)->Ok_0.x <= u64::MAX,
        reserve_y + proportional_deposit(reserve_x, reserve_y, lp_supply, lp)->Ok_0.y <= u64::MAX,
        lp_supply + lp <= u64::MAX,
    ensures
        ({
            let paid = proportional_deposit(reserve_x, reserve_y, lp_supply, lp)->Ok_0;
            let back = proportional_withdraw(
                (reserve_x + paid.x) as u64,
                (reserve_y + paid.y) as u64,
                (lp_supply + lp) as u64,
                lp,
            );
            &&& back is Ok
            &&& back->Ok_0.x <= paid.x
            &&& back->Ok_0.y <= paid.y
        }),
{
    lemma_round_trip_one(reserve_x, lp_supply, lp);
    lemma_round_trip_one(reserve_y, lp_supply, lp);
}

/// One asset's half of [`lemma_round_trip`].
proof fn lemma_round_trip_one(reserve: u64, lp_supply: u64, lp: u64)
    requires
        lp_supply > 0,
    ensures
        ({
            let paid = ceil_mul_div(lp as int, reserve as int, lp_supply as int);
            let back = floor_mul_div(lp as int, reserve + paid, lp_supply + lp);
            0 <= back <= paid
        }),
{
    let s = lp_supply as int;
    let paid = ceil_mul_div(lp as int, reserve as int, s);
    lemma_deposit_proportional(reserve, lp_supply, lp);
    let p = lp * (reserve + paid);
    assert(0 <= p <= paid * (s + lp)) by (nonlinear_arith)
        requires
            p == lp * (reserve + paid),
            lp * reserve <= paid * s,
            0 <= lp,
            0 <= reserve,
            0 <= paid,
    ;
    lemma_floor_bounds(p, s + lp);
    let back = p / (s + lp);
    assert(back <= paid) by (nonlinear_arith)
        requires
            back * (s + lp) <= p,
            p <= paid * (s + lp),
            0 < s + lp,
    ;
}

} // verus!
