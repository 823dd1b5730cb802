//! Creating a pool.

use crate::error::AmmError;
use crate::math::BPS_DENOMINATOR;
use crate::state::config::Address;
use crate::state::config::Config;
use vstd::prelude::*;

verus! {

/// The bumps of the two addresses that belong to a new pool.
#[derive(Clone, Copy, Debug, PartialEq, Eq, Structural)]
pub struct InitializeBumps {
    /// Bump of the address under which the pool's record is stored.
    pub config: u8,
    /// Bump of the address of the share mint.
    pub mint_lp_token: u8,
}

/// What the creation of a pool reads and writes: the two assets to trade and
/// the record to fill in.
#[derive(Clone, Copy, Debug, PartialEq, Eq)]
pub struct Initialize {
    /// First asset to trade.
    pub mint_token_x: Address,
    /// Second asset to trade.
    pub mint_token_y: Address,
    /// Pool settings and state.
    pub config: Config,
}

impl Initialize {
    /// The record of a new pool: the parameters as given, the assets as they
    /// stand in the snapshot, and the pool unlocked.
    pub open spec fn new_config(
        &self,
        seed: u64,
        fee: u16,
        authority: Option<Address>,
        bumps: InitializeBumps,
    ) -> Config {
        Config {
            authority,
            seed,
            fee,
            mint_x: self.mint_token_x,
            mint_y: self.mint_token_y,
            locked: false,
            config_bump: bumps.config,
            lp_bump: bumps.mint_lp_token,
        }
    }

    /// Create and configure the new pool.
    ///
    /// Succeeds exactly where `fee` is at most 10000 basis points, and then
    /// writes the record of [`Initialize::new_config`]. A greater fee fails
    /// with [`AmmError::InvalidAmount`] and writes nothing.
    pub fn init(
        &mut self,
        seed: u64,
        fee: u16,
        authority: Option<Address>,
        bumps: InitializeBumps,
    ) -> (res: Result<(), AmmError>)
        ensures
            fee <= BPS_DENOMINATOR ==> res is Ok,
            fee > BPS_DENOMINATOR ==> res == Err::<(), AmmError>(AmmError::InvalidAmount),
            res is Ok ==> *final(self) == (Initialize {
                config: old(self).new_config(seed, fee, authority, bumps),
                ..*old(self)
            }),
            res is Ok ==> final(self).config.wf() && !final(self).config.locked,
            res is Err ==> *final(self) == *old(self),
    {
        if fee > BPS_DENOMINATOR {
            return Err(AmmError::InvalidAmount);
        }
        self.config = Config {
            authority,
            seed,
            fee,
            mint_x: self.mint_token_x,
            mint_y: self.mint_token_y,
            locked: false,
            config_bump: bumps.config,
            lp_bump: bumps.mint_lp_token,
        };
        Ok(())
    }
}

} // verus!
