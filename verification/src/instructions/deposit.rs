//! Adding liquidity.

use crate::curve::compute_initial_deposit;
use crate::curve::compute_proportional_deposit;
use crate::curve::initial_deposit;
use crate::curve::lemma_deposit_proportional;
use crate::curve::proportional_deposit;
use crate::curve::XYAmounts;
use crate::error::AmmError;
use crate::guard::require_at_most;
use crate::guard::require_nonzero;
use crate::guard::require_unlocked;
use crate::ledger::Asset;
use crate::ledger::MintTo;
use crate::ledger::Transfer;
use crate::math::checked_sum;
use crate::state::config::Config;
use vstd::prelude::*;

verus! {

/// What a deposit reads of the pool: its configuration, the share supply and
/// the two reserves.
#[derive(Clone, Copy, Debug, PartialEq, Eq)]
pub struct Deposit {
    /// Pool settings.
    pub config: Config,
    /// Shares outstanding.
    pub lp_supply: u64,
    /// The pool's reserve of the first asset.
    pub vault_x: u64,
    /// The pool's reserve of the second asset.
    pub vault_y: u64,
}

/// What a deposit asks of the ledger: the caller pays both assets into the
/// reserves and receives new shares.
#[derive(Clone, Copy, Debug, PartialEq, Eq, Structural)]
pub struct DepositInstructions {
    pub deposit_x: Transfer,
    pub deposit_y: Transfer,
    pub mint_lp: MintTo,
}

impl Deposit {
    /// What a deposit reads of a pool that has just been created: no shares
    /// are outstanding and both reserves are empty.
    pub fn new(config: Config) -> (pool: Deposit)
        ensures
            pool == (Deposit { config, lp_supply: 0, vault_x: 0, vault_y: 0 }),
            pool.is_empty(),
            pool.consistent(),
    {
        Deposit { config, lp_supply: 0, vault_x: 0, vault_y: 0 }
    }

    /// No shares are outstanding and both reserves are empty.
    pub open spec fn is_empty(&self) -> bool {
        self.lp_supply == 0 && self.vault_x == 0 && self.vault_y == 0
    }

    /// The pool is either empty throughout or seeded throughout: the share
    /// supply and the two reserves are zero together or not at all.
    pub open spec fn consistent(&self) -> bool {
        &&& self.vault_x == 0 <==> self.lp_supply == 0
        &&& self.vault_y == 0 <==> self.lp_supply == 0
    }

    /// The amounts that a deposit for `amount` shares owes. Into an empty
    /// pool it pays exactly `max_x` and `max_y`, neither of which may be zero;
    /// otherwise it pays its share of each reserve.
    pub open spec fn amounts_owed(&self, amount: u64, max_x: u64, max_y: u64) -> Result<
        XYAmounts,
        AmmError,
    > {
        if self.is_empty() {
            if max_x == 0 || max_y == 0 {
                Err(AmmError::InvalidAmount)
            } else {
                Ok(initial_deposit(max_x, max_y))
            }
        } else {
            proportional_deposit(self.vault_x, self.vault_y, self.lp_supply, amount)
        }
    }

    /// The snapshot once `amount` more of the selected asset lies in its
    /// reserve.
    pub open spec fn with_tokens(self, is_x: bool, amount: u64) -> Result<Deposit, AmmError> {
        if is_x {
            if self.vault_x + amount > u64::MAX {
                Err(AmmError::CurveError)
            } else {
                Ok(Deposit { vault_x: (self.vault_x + amount) as u64, ..self })
            }
        } else {
            if self.vault_y + amount > u64::MAX {
                Err(AmmError::CurveError)
            } else {
                Ok(Deposit { vault_y: (self.vault_y + amount) as u64, ..self })
            }
        }
    }

    /// The snapshot once `amount` more shares are outstanding.
    pub open spec fn with_shares(self, amount: u64) -> Result<Deposit, AmmError> {
        if self.lp_supply + amount > u64::MAX {
            Err(AmmError::CurveError)
        } else {
            Ok(Deposit { lp_supply: (self.lp_supply + amount) as u64, ..self })
        }
    }

    /// What a deposit for `amount` shares, spending at most `max_x` and
    /// `max_y`, does to the pool and asks of the ledger.
    ///
    /// The checks, in the order in which the first failure decides: the pool
    /// is not locked; `amount` is not zero; the amounts owed can be computed;
    /// neither exceeds its maximum; the reserves and the share supply stay
    /// within 64 bits.
    pub open spec fn deposited(self, amount: u64, max_x: u64, max_y: u64) -> Result<
        (Deposit, DepositInstructions),
        AmmError,
    > {
        if self.config.locked {
            Err(AmmError::PoolLocked)
        } else if amount == 0 {
            Err(AmmError::InvalidAmount)
        } else {
            match self.amounts_owed(amount, max_x, max_y) {
                Err(e) => Err(e),
                Ok(owed) => {
                    if owed.x > max_x || owed.y > max_y {
                        Err(AmmError::SlippageExceeded)
                    } else if self.vault_x + owed.x > u64::MAX || self.vault_y + owed.y > u64::MAX
                        || self.lp_supply + amount > u64::MAX {
                        Err(AmmError::CurveError)
                    } else {
                        Ok(
                            (
                                Deposit {
                                    config: self.config,
                                    lp_supply: (self.lp_supply + amount) as u64,
                                    vault_x: (self.vault_x + owed.x) as u64,
                                    vault_y: (self.vault_y + owed.y) as u64,
                                },
                                DepositInstructions {
                                    deposit_x: Transfer::paid_in(Asset::X, owed.x),
                                    deposit_y: Transfer::paid_in(Asset::Y, owed.y),
                                    mint_lp: MintTo::issued(amount),
                                },
                            ),
                        )
                    }
                },
            }
        }
    }

    /// Add liquidity to the pool: `amount` shares are to be issued, for at
    /// most `max_x` and `max_y` of the two assets.
    ///
    /// On success the snapshot holds the reserves and the supply after the
    /// deposit, and the instructions returned carry the amounts spent. On
    /// failure nothing has changed. A locked pool fails with
    /// [`AmmError::PoolLocked`] whatever else is asked. A pool that held
    /// liquidity is paid the share `amount / lp_supply` of each reserve, or
    /// less than one unit more.
    pub fn deposit(&mut self, amount: u64, max_x: u64, max_y: u64) -> (res: Result<
        DepositInstructions,
        AmmError,
    >)
        ensures
            res matches Ok(instructions) ==> old(self).deposited(amount, max_x, max_y) == Ok::<
                (Deposit, DepositInstructions),
                AmmError,
            >((*final(self), instructions)),
            res matches Err(e) ==> old(self).deposited(amount, max_x, max_y) == Err::<
                (Deposit, DepositInstructions),
                AmmError,
            >(e),
            res is Err ==> *final(self) == *old(self),
            old(self).config.locked ==> res == Err::<DepositInstructions, AmmError>(
                AmmError::PoolLocked,
            ),
            res matches Ok(instructions) ==> ({
                let paid_x = instructions.deposit_x.amount;
                let paid_y = instructions.deposit_y.amount;
                &&& amount > 0
                &&& paid_x <= max_x
                &&& paid_y <= max_y
                &&& instructions.mint_lp.amount == amount
                &&& final(self).config == old(self).config
                &&& final(self).vault_x == old(self).vault_x + paid_x
                &&& final(self).vault_y == old(self).vault_y + paid_y
                &&& final(self).lp_supply == old(self).lp_supply + amount
                &&& old(self).is_empty() ==> paid_x == max_x && paid_y == max_y
                &&& !old(self).is_empty() ==> {
                    &&& (paid_x - 1) * old(self).lp_supply < amount * old(self).vault_x <= paid_x
                        * old(self).lp_supply
                    &&& (paid_y - 1) * old(self).lp_supply < amount * old(self).vault_y <= paid_y
                        * old(self).lp_supply
                }
                &&& old(self).consistent() ==> final(self).consistent() && !final(self).is_empty()
            }),
    {
        require_unlocked(self.config.locked)?;
        require_nonzero(amount)?;
        let owed: XYAmounts = if self.lp_supply == 0 && self.vault_x == 0 && self.vault_y == 0 {
            require_nonzero(max_x)?;
            require_nonzero(max_y)?;
            compute_initial_deposit(max_x, max_y)
        } else {
            compute_proportional_deposit(self.vault_x, self.vault_y, self.lp_supply, amount)?
        };
        require_at_most(owed.x, max_x)?;
        require_at_most(owed.y, max_y)?;
        let mut next: Deposit = *self;
        let deposit_x: Transfer = next.deposit_tokens(true, owed.x)?;
        let deposit_y: Transfer = next.deposit_tokens(false, owed.y)?;
        let mint_lp: MintTo = next.mint_lp_tokens(amount)?;
        proof {
            if !old(self).is_empty() {
                lemma_deposit_proportional(self.vault_x, self.lp_supply, amount);
                lemma_deposit_proportional(self.vault_y, self.lp_supply, amount);
            }
        }
        *self = next;
        Ok(DepositInstructions { deposit_x, deposit_y, mint_lp })
    }

    /// Transfer `amount` of the selected asset from the caller to the pool:
    /// the reserve grows by `amount`, and the transfer is returned for the
    /// ledger to carry out in the caller's name.
    ///
    /// Fails with [`AmmError::CurveError`], and changes nothing, where the
    /// reserve would exceed 64 bits.
    pub fn deposit_tokens(&mut self, is_x: bool, amount: u64) -> (res: Result<Transfer, AmmError>)
        ensures
            res matches Ok(transfer) ==> old(self).with_tokens(is_x, amount) == Ok::<
                Deposit,
                AmmError,
            >(*final(self)) && transfer == Transfer::paid_in(Asset::selected(is_x), amount),
            res matches Err(e) ==> old(self).with_tokens(is_x, amount) == Err::<Deposit, AmmError>(e),
            res is Err ==> *final(self) == *old(self),
    {
        if is_x {
            self.vault_x = checked_sum(self.vault_x, amount)?;
        } else {
            self.vault_y = checked_sum(self.vault_y, amount)?;
        }
        Ok(Transfer::into_vault(Asset::select(is_x), amount))
    }

    /// Give the caller `amount` shares for their deposit: the supply grows by
    /// `amount`, and the minting is returned for the ledger to carry out in
    /// the pool's name.
    ///
    /// Fails with [`AmmError::CurveError`], and changes nothing, where the
    /// supply would exceed 64 bits.
    pub fn mint_lp_tokens(&mut self, amount: u64) -> (res: Result<MintTo, AmmError>)
        ensures
            res matches Ok(mint) ==> old(self).with_shares(amount) == Ok::<Deposit, AmmError>(
                *final(self),
            ) && mint == MintTo::issued(amount),
            res matches Err(e) ==> old(self).with_shares(amount) == Err::<Deposit, AmmError>(e),
            res is Err ==> *final(self) == *old(self),
    {
        self.lp_supply = checked_sum(self.lp_supply, amount)?;
        Ok(MintTo::issue(amount))
    }
}

} // verus!
