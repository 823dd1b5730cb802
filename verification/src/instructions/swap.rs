//! Trading one asset for the other.

use crate::curve::compute_swap_output;
use crate::curve::swap_output;
use crate::curve::SwapResult;
use crate::error::AmmError;
use crate::guard::product_kept;
use crate::guard::require_at_least;
use crate::guard::require_nonzero;
use crate::guard::require_product_kept;
use crate::guard::require_unlocked;
use crate::ledger::Asset;
use crate::ledger::Transfer;
use crate::math::checked_difference;
use crate::math::checked_sum;
use crate::state::config::Config;
use vstd::prelude::*;

verus! {

/// What a swap reads of the pool: its configuration and the two reserves.
#[derive(Clone, Copy, Debug, PartialEq, Eq)]
pub struct Swap {
    /// Pool settings.
    pub config: Config,
    /// The pool's reserve of the first asset.
    pub vault_x: u64,
    /// The pool's reserve of the second asset.
    pub vault_y: u64,
}

/// What a swap asks of the ledger: the caller pays one asset into its
/// reserve, and the pool pays the other out of its own.
#[derive(Clone, Copy, Debug, PartialEq, Eq, Structural)]
pub struct SwapInstructions {
    pub deposit: Transfer,
    pub withdraw: Transfer,
}

impl Swap {
    /// The reserve of the asset that comes in: the first asset where `is_x`
    /// holds, the second otherwise.
    pub open spec fn reserve_in(&self, is_x: bool) -> u64 {
        if is_x {
            self.vault_x
        } else {
            self.vault_y
        }
    }

    /// The reserve of the asset that goes out: the other one.
    pub open spec fn reserve_out(&self, is_x: bool) -> u64 {
        if is_x {
            self.vault_y
        } else {
            self.vault_x
        }
    }

    /// The snapshot with the given reserves of the asset that comes in and of
    /// the asset that goes out.
    pub open spec fn with_reserves(self, is_x: bool, reserve_in: u64, reserve_out: u64) -> Swap {
        if is_x {
            Swap { vault_x: reserve_in, vault_y: reserve_out, ..self }
        } else {
            Swap { vault_x: reserve_out, vault_y: reserve_in, ..self }
        }
    }

    /// The snapshot once `amount` more of the asset coming in lies in its
    /// reserve.
    pub open spec fn with_tokens(self, is_x: bool, amount: u64) -> Result<Swap, AmmError> {
        if self.reserve_in(is_x) + amount > u64::MAX {
            Err(AmmError::CurveError)
        } else {
            Ok(
                self.with_reserves(
                    is_x,
                    (self.reserve_in(is_x) + amount) as u64,
                    self.reserve_out(is_x),
                ),
            )
        }
    }

    /// The snapshot once `amount` of the asset going out has left its
    /// reserve: the reserve of the second asset where `is_x` holds, of the
    /// first otherwise.
    pub open spec fn without_tokens(self, is_x: bool, amount: u64) -> Result<Swap, AmmError> {
        if amount > self.reserve_out(is_x) {
            Err(AmmError::CurveError)
        } else {
            Ok(
                self.with_reserves(
                    is_x,
                    self.reserve_in(is_x),
                    (self.reserve_out(is_x) - amount) as u64,
                ),
            )
        }
    }

    /// What a swap of `amount` of the asset that `is_x` selects, for at least
    /// `min` of the other, does to the pool and asks of the ledger.
    ///
    /// The checks, in the order in which the first failure decides: the pool
    /// is not locked; `amount` is not zero; the curve yields the two legs; the
    /// amount paid out is at least `min`; the reserve that grows stays within
    /// 64 bits.
    pub open spec fn swapped(self, is_x: bool, amount: u64, min: u64) -> Result<
        (Swap, SwapInstructions),
        AmmError,
    > {
        if self.config.locked {
            Err(AmmError::PoolLocked)
        } else if amount == 0 {
            Err(AmmError::InvalidAmount)
        } else {
            match swap_output(
                self.reserve_in(is_x),
                self.reserve_out(is_x),
                amount,
                self.config.fee,
            ) {
                Err(e) => Err(e),
                Ok(legs) => {
                    if legs.withdraw < min {
                        Err(AmmError::SlippageExceeded)
                    } else if self.reserve_in(is_x) + legs.deposit > u64::MAX {
                        Err(AmmError::CurveError)
                    } else {
                        Ok(
                            (
                                self.with_reserves(
                                    is_x,
                                    (self.reserve_in(is_x) + legs.deposit) as u64,
                                    (self.reserve_out(is_x) - legs.withdraw) as u64,
                                ),
                                SwapInstructions {
                                    deposit: Transfer::paid_in(Asset::selected(is_x), legs.deposit),
                                    withdraw: Transfer::paid_out(
                                        Asset::selected(is_x).opposite(),
                                        legs.withdraw,
                                    ),
                                },
                            ),
                        )
                    }
                },
            }
        }
    }

    /// Trade one asset for the other: `amount` of the first asset for the
    /// second where `is_x` holds, of the second for the first otherwise, for
    /// at least `min` in return.
    ///
    /// On success the snapshot holds the reserves after the swap, and the
    /// instructions returned carry the amount paid in, fee included, and the
    /// amount paid out. Both reserves still hold something, and their product
    /// has held up, up to rounding. On failure nothing has changed. A locked
    /// pool fails with [`AmmError::PoolLocked`] whatever else is asked.
    pub fn swap(&mut self, is_x: bool, amount: u64, min: u64) -> (res: Result<
        SwapInstructions,
        AmmError,
    >)
        ensures
            res matches Ok(instructions) ==> old(self).swapped(is_x, amount, min) == Ok::<
                (Swap, SwapInstructions),
                AmmError,
            >((*final(self), instructions)),
            res matches Err(e) ==> old(self).swapped(is_x, amount, min) == Err::<
                (Swap, SwapInstructions),
                AmmError,
            >(e),
            res is Err ==> *final(self) == *old(self),
            old(self).config.locked ==> res == Err::<SwapInstructions, AmmError>(
                AmmError::PoolLocked,
            ),
            res matches Ok(instructions) ==> ({
                let paid = instructions.deposit.amount;
                let got = instructions.withdraw.amount;
                &&& paid == amount
                &&& amount > 0
                &&& got >= min
                &&& got > 0
                &&& final(self).config == old(self).config
                &&& final(self).reserve_in(is_x) == old(self).reserve_in(is_x) + paid
                &&& final(self).reserve_out(is_x) == old(self).reserve_out(is_x) - got
                &&& old(self).vault_x > 0 && old(self).vault_y > 0
                &&& final(self).vault_x > 0 && final(self).vault_y > 0
                &&& product_kept(
                    old(self).reserve_in(is_x),
                    old(self).reserve_out(is_x),
                    final(self).reserve_in(is_x),
                    final(self).reserve_out(is_x),
                )
            }),
    {
        require_unlocked(self.config.locked)?;
        require_nonzero(amount)?;
        let reserve_in: u64 = if is_x {
            self.vault_x
        } else {
            self.vault_y
        };
        let reserve_out: u64 = if is_x {
            self.vault_y
        } else {
            self.vault_x
        };
        let legs: SwapResult = compute_swap_output(reserve_in, reserve_out, amount, self.config.fee)?;
        require_at_least(legs.withdraw, min)?;
        let mut next: Swap = *self;
        let deposit: Transfer = next.deposit_tokens(is_x, legs.deposit)?;
        let withdraw: Transfer = next.withdraw_tokens(is_x, legs.withdraw)?;
        let new_reserve_in: u64 = if is_x {
            next.vault_x
        } else {
            next.vault_y
        };
        let new_reserve_out: u64 = if is_x {
            next.vault_y
        } else {
            next.vault_x
        };
        require_product_kept(reserve_in, reserve_out, new_reserve_in, new_reserve_out)?;
        *self = next;
        Ok(SwapInstructions { deposit, withdraw })
    }

    /// Take `amount` of the selected asset from the caller and put it in the
    /// pool: the reserve grows by `amount`, and the transfer is returned for
    /// the ledger to carry out in the caller's name.
    ///
    /// Fails with [`AmmError::CurveError`], and changes nothing, where the
    /// reserve would exceed 64 bits.
    pub fn deposit_tokens(&mut self, is_x: bool, amount: u64) -> (res: Result<Transfer, AmmError>)
        ensures
            res matches Ok(transfer) ==> old(self).with_tokens(is_x, amount) == Ok::<
                Swap,
                AmmError,
            >(*final(self)) && transfer == Transfer::paid_in(Asset::selected(is_x), amount),
            res matches Err(e) ==> old(self).with_tokens(is_x, amount) == Err::<Swap, AmmError>(e),
            res is Err ==> *final(self) == *old(self),
    {
        if is_x {
            self.vault_x = checked_sum(self.vault_x, amount)?;
        } else {
            self.vault_y = checked_sum(self.vault_y, amount)?;
        }
        Ok(Transfer::into_vault(Asset::select(is_x), amount))
    }

    /// Take `amount` from the pool and give it to the caller, in the asset
    /// opposite to the one that `is_x` selects: that reserve shrinks by
    /// `amount`, and the transfer is returned for the ledger to carry out in
    /// the pool's name.
    ///
    /// Fails with [`AmmError::CurveError`], and changes nothing, where the
    /// reserve holds less than `amount`.
    pub fn withdraw_tokens(&mut self, is_x: bool, amount: u64) -> (res: Result<Transfer, AmmError>)
        ensures
            res matches Ok(transfer) ==> old(self).without_tokens(is_x, amount) == Ok::<
                Swap,
                AmmError,
            >(*final(self)) && transfer == Transfer::paid_out(
                Asset::selected(is_x).opposite(),
                amount,
            ),
            res matches Err(e) ==> old(self).without_tokens(is_x, amount) == Err::<Swap, AmmError>(
                e,
            ),
            res is Err ==> *final(self) == *old(self),
    {
        if is_x {
            self.vault_y = checked_difference(self.vault_y, amount)?;
        } else {
            self.vault_x = checked_difference(self.vault_x, amount)?;
        }
        Ok(Transfer::out_of_vault(Asset::select(is_x).other(), amount))
    }
}

} // verus!
