//! The instructions that the pool hands to the ledger.
//!
//! The pool moves no balance itself. Each operation that succeeds returns the
//! transfers, the minting or the burning that make it up, for the ledger to
//! carry out together or not at all. Every instruction names the party in
//! whose name it is to be carried out.

use vstd::prelude::*;

verus! {

/// One of the pool's two assets.
#[derive(Clone, Copy, Debug, PartialEq, Eq, Structural)]
pub enum Asset {
    X,
    Y,
}

/// A holder of balances.
#[derive(Clone, Copy, Debug, PartialEq, Eq, Structural)]
pub enum Holder {
    /// The caller's own account of the asset.
    User,
    /// The pool's reserve of the asset.
    Vault,
}

/// In whose name the ledger is asked to act.
#[derive(Clone, Copy, Debug, PartialEq, Eq, Structural)]
pub enum Authority {
    /// The caller, who authorised the operation.
    User,
    /// The pool itself, over its own reserves and its share mint.
    Pool,
}

/// Move `amount` of `asset` from one holder to the other.
#[derive(Clone, Copy, Debug, PartialEq, Eq, Structural)]
pub struct Transfer {
    pub asset: Asset,
    pub from: Holder,
    pub to: Holder,
    pub authority: Authority,
    pub amount: u64,
}

/// Issue `amount` new shares to the caller.
#[derive(Clone, Copy, Debug, PartialEq, Eq, Structural)]
pub struct MintTo {
    pub authority: Authority,
    pub amount: u64,
}

/// Redeem `amount` of the caller's shares.
#[derive(Clone, Copy, Debug, PartialEq, Eq, Structural)]
pub struct Burn {
    pub authority: Authority,
    pub amount: u64,
}

impl Asset {
    /// The asset that `is_x` selects: the first where it holds, the second
    /// otherwise.
    pub open spec fn selected(is_x: bool) -> Asset {
        if is_x {
            Asset::X
        } else {
            Asset::Y
        }
    }

    /// The other asset of the pair.
    pub open spec fn opposite(self) -> Asset {
        match self {
            Asset::X => Asset::Y,
            Asset::Y => Asset::X,
        }
    }

    /// The asset that `is_x` selects.
    pub fn select(is_x: bool) -> (asset: Asset)
        ensures
            asset == Asset::selected(is_x),
    {
        if is_x {
            Asset::X
        } else {
            Asset::Y
        }
    }

    /// The other asset of the pair.
    pub fn other(self) -> (asset: Asset)
        ensures
            asset == self.opposite(),
    {
        match self {
            Asset::X => Asset::Y,
            Asset::Y => Asset::X,
        }
    }
}

impl Transfer {
    /// The caller pays `amount` of `asset` into the pool's reserve.
    pub open spec fn paid_in(asset: Asset, amount: u64) -> Transfer {
        Transfer { asset, from: Holder::User, to: Holder::Vault, authority: Authority::User, amount }
    }

    /// The pool pays `amount` of `asset` out of its reserve to the caller.
    pub open spec fn paid_out(asset: Asset, amount: u64) -> Transfer {
        Transfer { asset, from: Holder::Vault, to: Holder::User, authority: Authority::Pool, amount }
    }

    /// The transfer by which the caller pays `amount` of `asset` into the
    /// pool's reserve, in the caller's own name.
    pub fn into_vault(asset: Asset, amount: u64) -> (transfer: Transfer)
        ensures
            transfer == Transfer::paid_in(asset, amount),
    {
        Transfer { asset, from: Holder::User, to: Holder::Vault, authority: Authority::User, amount }
    }

    /// The transfer by which the pool pays `amount` of `asset` out of its
    /// reserve to the caller, in the pool's name.
    pub fn out_of_vault(asset: Asset, amount: u64) -> (transfer: Transfer)
        ensures
            transfer == Transfer::paid_out(asset, amount),
    {
        Transfer { asset, from: Holder::Vault, to: Holder::User, authority: Authority::Pool, amount }
    }
}

impl MintTo {
    /// The issue of `amount` shares to the caller, in the pool's name.
    pub open spec fn issued(amount: u64) -> MintTo {
        MintTo { authority: Authority::Pool, amount }
    }

    /// The issue of `amount` shares to the caller, in the pool's name.
    pub fn issue(amount: u64) -> (mint: MintTo)
        ensures
            mint == MintTo::issued(amount),
    {
        MintTo { authority: Authority::Pool, amount }
    }
}

impl Burn {
    /// The redemption of `amount` of the caller's shares, in the caller's own
    /// name.
    pub open spec fn redeemed(amount: u64) -> Burn {
        Burn { authority: Authority::User, amount }
    }

    /// The redemption of `amount` of the caller's shares, in the caller's own
    /// name.
    pub fn redeem(amount: u64) -> (burn: Burn)
        ensures
            burn == Burn::redeemed(amount),
    {
        Burn { authority: Authority::User, amount }
    }
}

} // verus!
