//! Removing liquidity.

use crate::curve::compute_proportional_withdraw;
use crate::curve::lemma_round_trip;
use crate::curve::lemma_withdraw_proportional;
use crate::curve::proportional_withdraw;
use crate::curve::XYAmounts;
use crate::error::AmmError;
use crate::guard::require_at_least;
use crate::guard::require_nonzero;
use crate::guard::require_unlocked;
use crate::instructions::deposit::Deposit;
use crate::ledger::Asset;
use crate::ledger::Burn;
use crate::ledger::Transfer;
use crate::math::checked_difference;
use crate::state::config::Config;
use vstd::prelude::*;

verus! {

/// What a withdrawal reads of the pool: its configuration, the share supply
/// and the two reserves.
#[derive(Clone, Copy, Debug, PartialEq, Eq)]
pub struct Withdraw {
    /// Pool settings.
    pub config: Config,
    /// Shares outstanding.
    pub lp_supply: u64,
    /// The pool's reserve of the first asset.
    pub vault_x: u64,
    /// The pool's reserve of the second asset.
    pub vault_y: u64,
}

/// What a withdrawal asks of the ledger: the pool pays both assets out of the
/// reserves and the caller's shares are redeemed.
#[derive(Clone, Copy, Debug, PartialEq, Eq, Structural)]
pub struct WithdrawInstructions {
    pub withdraw_x: Transfer,
    pub withdraw_y: Transfer,
    pub burn_lp: Burn,
}

impl Withdraw {
    /// What a withdrawal reads of the pool that a deposit has left behind.
    pub open spec fn following(pool: Deposit) -> Withdraw {
        Withdraw {
            config: pool.config,
            lp_supply: pool.lp_supply,
            vault_x: pool.vault_x,
            vault_y: pool.vault_y,
        }
    }

    /// No shares are outstanding and both reserves are empty.
    pub open spec fn is_empty(&self) -> bool {
        self.lp_supply == 0 && self.vault_x == 0 && self.vault_y == 0
    }

    /// The pool is either empty throughout or seeded throughout: the share
    /// supply and the two reserves are zero together or not at all.
    pub open spec fn consistent(&self) -> bool {
        &&& self.vault_x == 0 <==> self.lp_supply == 0
        &&& self.vault_y == 0 <==> self.lp_supply == 0
    }

    /// The snapshot once `amount` of the selected asset has left its reserve.
    pub open spec fn without_tokens(self, is_x: bool, amount: u64) -> Result<Withdraw, AmmError> {
        if is_x {
            if amount > self.vault_x {
                Err(AmmError::CurveError)
            } else {
                Ok(Withdraw { vault_x: (self.vault_x - amount) as u64, ..self })
            }
        } else {
            if amount > self.vault_y {
                Err(AmmError::CurveError)
            } else {
                Ok(Withdraw { vault_y: (self.vault_y - amount) as u64, ..self })
            }
        }
    }

    /// The snapshot once `amount` shares are no longer outstanding.
    pub open spec fn without_shares(self, amount: u64) -> Result<Withdraw, AmmError> {
        if amount > self.lp_supply {
            Err(AmmError::CurveError)
        } else {
            Ok(Withdraw { lp_supply: (self.lp_supply - amount) as u64, ..self })
        }
    }

    /// What the burning of `amount` shares, for at least `min_x` and `min_y`,
    /// does to the pool and asks of the ledger.
    ///
    /// The checks, in the order in which the first failure decides: the pool
    /// is not locked; `amount` is neither zero nor more than the supply; the
    /// amounts released can be computed; neither falls short of its minimum.
    pub open spec fn withdrawn(self, amount: u64, min_x: u64, min_y: u64) -> Result<
        (Withdraw, WithdrawInstructions),
        AmmError,
    > {
        if self.config.locked {
            Err(AmmError::PoolLocked)
        } else if amount == 0 || amount > self.lp_supply {
            Err(AmmError::InvalidAmount)
        } else {
            match proportional_withdraw(self.vault_x, self.vault_y, self.lp_supply, amount) {
                Err(e) => Err(e),
                Ok(released) => {
                    if released.x < min_x || released.y < min_y {
                        Err(AmmError::SlippageExceeded)
                    } else {
                        Ok(
                            (
                                Withdraw {
                                    config: self.config,
                                    lp_supply: (self.lp_supply - amount) as u64,
                                    vault_x: (self.vault_x - released.x) as u64,
                                    vault_y: (self.vault_y - released.y) as u64,
                                },
                                WithdrawInstructions {
                                    withdraw_x: Transfer::paid_out(Asset::X, released.x),
                                    withdraw_y: Transfer::paid_out(Asset::Y, released.y),
                                    burn_lp: Burn::redeemed(amount),
                                },
                            ),
                        )
                    }
                },
            }
        }
    }

    /// Remove liquidity from the pool: `amount` shares are to be redeemed,
    /// for at least `min_x` and `min_y` of the two assets.
    ///
    /// On success the snapshot holds the reserves and the supply after the
    /// withdrawal, and the instructions returned carry the amounts received:
    /// the share `amount / lp_supply` of each reserve, or less than one unit
    /// less. On failure nothing has changed. A locked pool fails with
    /// [`AmmError::PoolLocked`] whatever else is asked. Where the pool is not
    /// locked and `amount` lies between 1 and the supply, only the minima can
    /// make the withdrawal fail. The pool is left empty exactly where the
    /// whole supply is redeemed.
    pub fn withdraw(&mut self, amount: u64, min_x: u64, min_y: u64) -> (res: Result<
        WithdrawInstructions,
        AmmError,
    >)
        ensures
            res matches Ok(instructions) ==> old(self).withdrawn(amount, min_x, min_y) == Ok::<
                (Withdraw, WithdrawInstructions),
                AmmError,
            >((*final(self), instructions)),
            res matches Err(e) ==> old(self).withdrawn(amount, min_x, min_y) == Err::<
                (Withdraw, WithdrawInstructions),
                AmmError,
            >(e),
            res is Err ==> *final(self) == *old(self),
            old(self).config.locked ==> res == Err::<WithdrawInstructions, AmmError>(
                AmmError::PoolLocked,
            ),
            !old(self).config.locked && 0 < amount <= old(self).lp_supply ==> res is Ok || res
                == Err::<WithdrawInstructions, AmmError>(AmmError::SlippageExceeded),
            res matches Ok(instructions) ==> ({
                let got_x = instructions.withdraw_x.amount;
                let got_y = instructions.withdraw_y.amount;
                &&& 0 < amount <= old(self).lp_supply
                &&& got_x >= min_x
                &&& got_y >= min_y
                &&& instructions.burn_lp.amount == amount
                &&& final(self).config == old(self).config
                &&& final(self).vault_x == old(self).vault_x - got_x
                &&& final(self).vault_y == old(self).vault_y - got_y
                &&& final(self).lp_supply == old(self).lp_supply - amount
                &&& got_x * old(self).lp_supply <= amount * old(self).vault_x
                &&& amount * old(self).vault_x < (got_x + 1) * old(self).lp_supply
                &&& got_y * old(self).lp_supply <= amount * old(self).vault_y
                &&& amount * old(self).vault_y < (got_y + 1) * old(self).lp_supply
                &&& old(self).consistent() ==> final(self).consistent()
                &&& old(self).consistent() ==> (final(self).is_empty() <==> amount
                    == old(self).lp_supply)
            }),
    {
        require_unlocked(self.config.locked)?;
        require_nonzero(amount)?;
        if amount > self.lp_supply {
            return Err(AmmError::InvalidAmount);
        }
        proof {
            lemma_withdraw_proportional(self.vault_x, self.lp_supply, amount);
            lemma_withdraw_proportional(self.vault_y, self.lp_supply, amount);
        }
        let released: XYAmounts = compute_proportional_withdraw(
            self.vault_x,
            self.vault_y,
            self.lp_supply,
            amount,
        )?;
        require_at_least(released.x, min_x)?;
        require_at_least(released.y, min_y)?;
        let mut next: Withdraw = *self;
        let withdraw_x: Transfer = next.withdraw_tokens(true, released.x)?;
        let withdraw_y: Transfer = next.withdraw_tokens(false, released.y)?;
        let burn_lp: Burn = next.burn_lp_tokens(amount)?;
        *self = next;
        Ok(WithdrawInstructions { withdraw_x, withdraw_y, burn_lp })
    }

    /// Transfer `amount` of the selected asset from the pool to the caller:
    /// the reserve shrinks by `amount`, and the transfer is returned for the
    /// ledger to carry out in the pool's name.
    ///
    /// Fails with [`AmmError::CurveError`], and changes nothing, where the
    /// reserve holds less than `amount`.
    pub fn withdraw_tokens(&mut self, is_x: bool, amount: u64) -> (res: Result<Transfer, AmmError>)
        ensures
            res matches Ok(transfer) ==> old(self).without_tokens(is_x, amount) == Ok::<
                Withdraw,
                AmmError,
            >(*final(self)) && transfer == Transfer::paid_out(Asset::selected(is_x), amount),
            res matches Err(e) ==> old(self).without_tokens(is_x, amount) == Err::<
                Withdraw,
                AmmError,
            >(e),
            res is Err ==> *final(self) == *old(self),
    {
        if is_x {
            self.vault_x = checked_difference(self.vault_x, amount)?;
        } else {
            self.vault_y = checked_difference(self.vault_y, amount)?;
        }
        Ok(Transfer::out_of_vault(Asset::select(is_x), amount))
    }

    /// Redeem `amount` of the caller's shares: the supply shrinks by
    /// `amount`, and the burning is returned for the ledger to carry out in
    /// the caller's name.
    ///
    /// Fails with [`AmmError::CurveError`], and changes nothing, where fewer
    /// than `amount` shares are outstanding.
    pub fn burn_lp_tokens(&mut self, amount: u64) -> (res: Result<Burn, AmmError>)
        ensures
            res matches Ok(burn) ==> old(self).without_shares(amount) == Ok::<Withdraw, AmmError>(
                *final(self),
            ) && burn == Burn::redeemed(amount),
            res matches Err(e) ==> old(self).without_shares(amount) == Err::<Withdraw, AmmError>(e),
            res is Err ==> *final(self) == *old(self),
    {
        self.lp_supply = checked_difference(self.lp_supply, amount)?;
        Ok(Burn::redeem(amount))
    }
}

/// Round trip: a deposit for `amount` shares, followed at once by the
/// withdrawal of the same `amount`, succeeds and returns no more of either
/// asset than the deposit took. Rounding never favours the caller.
pub proof fn lemma_deposit_then_withdraw(pool: Deposit, amount: u64, max_x: u64, max_y: u64)
    requires
        pool.deposited(amount, max_x, max_y) is Ok,
    ensures
        ({
            let (after, paid) = pool.deposited(amount, max_x, max_y)->Ok_0;
            let back = Withdraw::following(after).withdrawn(amount, 0, 0);
            &&& back is Ok
            &&& back->Ok_0.1.withdraw_x.amount <= paid.deposit_x.amount
            &&& back->Ok_0.1.withdraw_y.amount <= paid.deposit_y.amount
        }),
{
    if pool.is_empty() {
        lemma_withdraw_proportional(max_x, amount, amount);
        lemma_withdraw_proportional(max_y, amount, amount);
    } else {
        lemma_round_trip(pool.vault_x, pool.vault_y, pool.lp_supply, amount);
    }
}

} // verus!
