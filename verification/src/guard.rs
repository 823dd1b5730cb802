//! The checks that stand around every operation on the pool.
//!
//! On entry: the pool is not locked and the requested amount is not zero.
//! After the amounts are computed: they respect the bounds that the caller
//! gave. On exit of a swap: the product of the reserves has not fallen, up to
//! the rounding of the output reserve. Before a change of the lock: the caller
//! is the pool's authority.

use crate::curve::product;
use crate::error::AmmError;
use crate::error::AuthError;
use crate::math::lemma_product_fits;
use crate::state::config::Address;
use vstd::prelude::*;

verus! {

/// Whether the product of the reserves after a swap has held up against the
/// product before it, up to rounding: the reserves after the swap, with one
/// unit more of the output asset, multiply to more than the reserves before.
pub open spec fn product_kept(
    reserve_in: u64,
    reserve_out: u64,
    new_reserve_in: u64,
    new_reserve_out: u64,
) -> bool {
    product(new_reserve_in as int, new_reserve_out + 1) > product(
        reserve_in as int,
        reserve_out as int,
    )
}

/// Whether `caller` may act for a pool with the given authority: it must be
/// that authority, and a pool without one admits nobody.
pub open spec fn authorized(authority: Option<Address>, caller: Address) -> bool {
    authority == Some(caller)
}

/// Rejects any operation on a locked pool with [`AmmError::PoolLocked`].
pub fn require_unlocked(locked: bool) -> (res: Result<(), AmmError>)
    ensures
        !locked ==> res is Ok,
        locked ==> res == Err::<(), AmmError>(AmmError::PoolLocked),
{
    if locked {
        Err(AmmError::PoolLocked)
    } else {
        Ok(())
    }
}

/// Rejects a zero amount with [`AmmError::InvalidAmount`].
pub fn require_nonzero(amount: u64) -> (res: Result<(), AmmError>)
    ensures
        amount != 0 ==> res is Ok,
        amount == 0 ==> res == Err::<(), AmmError>(AmmError::InvalidAmount),
{
    if amount == 0 {
        Err(AmmError::InvalidAmount)
    } else {
        Ok(())
    }
}

/// Rejects an amount to be paid that exceeds the caller's `max` with
/// [`AmmError::SlippageExceeded`].
pub fn require_at_most(amount: u64, max: u64) -> (res: Result<(), AmmError>)
    ensures
        amount <= max ==> res is Ok,
        amount > max ==> res == Err::<(), AmmError>(AmmError::SlippageExceeded),
{
    if amount > max {
        Err(AmmError::SlippageExceeded)
    } else {
        Ok(())
    }
}

/// Rejects an amount to be received that falls short of the caller's `min`
/// with [`AmmError::SlippageExceeded`].
pub fn require_at_least(amount: u64, min: u64) -> (res: Result<(), AmmError>)
    ensures
        amount >= min ==> res is Ok,
        amount < min ==> res == Err::<(), AmmError>(AmmError::SlippageExceeded),
{
    if amount < min {
        Err(AmmError::SlippageExceeded)
    } else {
        Ok(())
    }
}

/// The exit check of a swap: compares the product of the reserves after the
/// swap with the product before it and rejects a fall beyond rounding with
/// [`AmmError::CurveError`]. See [`product_kept`] for the rounding allowed.
pub fn require_product_kept(
    reserve_in: u64,
    reserve_out: u64,
    new_reserve_in: u64,
    new_reserve_out: u64,
) -> (res: Result<(), AmmError>)
    ensures
        product_kept(reserve_in, reserve_out, new_reserve_in, new_reserve_out) ==> res is Ok,
        !product_kept(reserve_in, reserve_out, new_reserve_in, new_reserve_out) ==> res == Err::<
            (),
            AmmError,
        >(AmmError::CurveError),
{
    proof {
        lemma_product_fits(reserve_in, reserve_out);
        lemma_product_fits(new_reserve_in, new_reserve_out);
        assert(new_reserve_in * (new_reserve_out + 1) == new_reserve_in * new_reserve_out
            + new_reserve_in) by (nonlinear_arith);
    }
    let before: u128 = (reserve_in as u128) * (reserve_out as u128);
    let after: u128 = (new_reserve_in as u128) * (new_reserve_out as u128 + 1);
    if after > before {
        Ok(())
    } else {
        Err(AmmError::CurveError)
    }
}

/// The administrative check: rejects a caller who is not the pool's authority
/// with [`AuthError::Unauthorized`], and every caller where the pool has none.
pub fn require_authority(authority: &Option<Address>, caller: &Address) -> (res: Result<
    (),
    AuthError,
>)
    ensures
        authorized(*authority, *caller) ==> res is Ok,
        !authorized(*authority, *caller) ==> res == Err::<(), AuthError>(AuthError::Unauthorized),
{
    match authority {
        Some(key) => {
            if *key == *caller {
                Ok(())
            } else {
                Err(AuthError::Unauthorized)
            }
        },
        None => Err(AuthError::Unauthorized),
    }
}

} // verus!
