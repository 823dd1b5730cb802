//! The pool's configuration and the identifiers it is made of.

use crate::error::AuthError;
use crate::guard::authorized;
use crate::guard::require_authority;
use crate::math::BPS_DENOMINATOR;
use vstd::prelude::*;
use vstd::std_specs::cmp::PartialEqSpecImpl;

verus! {

/// The identifier of an asset type or of a party: 32 opaque bytes.
#[derive(Clone, Copy, Debug, Eq)]
pub struct Address {
    pub bytes: [u8; 32],
}

impl PartialEq for Address {
    /// Two identifiers are equal where all their bytes are.
    fn eq(&self, other: &Self) -> (same: bool) {
        let mut i: usize = 0;
        while i < 32
            invariant
                i <= 32,
                forall|j: int| 0 <= j < i ==> self.bytes[j] == other.bytes[j],
            decreases 32 - i,
        {
            if self.bytes[i] != other.bytes[i] {
                return false;
            }
            i += 1;
        }
        assert(self.bytes =~= other.bytes);
        true
    }
}

impl PartialEqSpecImpl for Address {
    open spec fn obeys_eq_spec() -> bool {
        true
    }

    open spec fn eq_spec(&self, other: &Self) -> bool {
        *self == *other
    }
}

/// Pool configuration and state.
#[derive(Clone, Copy, Debug, PartialEq, Eq)]
pub struct Config {
    /// Who may lock and unlock the pool; `None` where nobody may.
    pub authority: Option<Address>,
    /// Tells apart the pools of one asset pair.
    pub seed: u64,
    /// Trading fee in basis points.
    pub fee: u16,
    /// First asset of the pair.
    pub mint_x: Address,
    /// Second asset of the pair.
    pub mint_y: Address,
    /// While set, deposits, withdrawals and swaps are turned down.
    pub locked: bool,
    /// Bump of the address under which the record is stored.
    pub config_bump: u8,
    /// Bump of the address of the share mint.
    pub lp_bump: u8,
}

impl Config {
    /// The fee is at most the whole.
    pub open spec fn wf(&self) -> bool {
        self.fee <= BPS_DENOMINATOR
    }

    /// Sets the lock flag on behalf of `caller`.
    ///
    /// Succeeds exactly where `caller` is the pool's authority; nothing but
    /// the flag changes then. Any other caller, and every caller of a pool
    /// without an authority, fails with [`AuthError::Unauthorized`] and
    /// changes nothing.
    pub fn set_locked(&mut self, locked: bool, caller: &Address) -> (res: Result<(), AuthError>)
        ensures
            authorized(old(self).authority, *caller) ==> res is Ok,
            !authorized(old(self).authority, *caller) ==> res == Err::<(), AuthError>(
                AuthError::Unauthorized,
            ),
            res is Ok ==> *final(self) == (Config { locked, ..*old(self) }),
            res is Err ==> *final(self) == *old(self),
            old(self).wf() ==> final(self).wf(),
    {
        require_authority(&self.authority, caller)?;
        self.locked = locked;
        Ok(())
    }
}

} // verus!
