//! Accounting and pricing core of a two-asset constant-product liquidity pool.
//!
//! The crate decides how many units of each asset move on a deposit, a
//! withdrawal and a swap, and guards the pool's invariants around each of
//! them. It moves no balance and stores nothing: every operation works on a
//! snapshot of the pool, and on success leaves the snapshot as the pool will
//! stand and returns the instructions for the ledger that make it so.
//!
//! * [`math`] multiplies and divides in 128 bits with stated rounding.
//! * [`curve`] computes the amounts from the reserves.
//! * [`guard`] holds the checks around every operation.
//! * [`ledger`] describes what the ledger is asked to do.
//! * [`state`] is the pool's stored record.
//! * [`instructions`] are the operations themselves.

pub mod curve;
pub mod error;
pub mod guard;
pub mod instructions;
pub mod ledger;
pub mod math;
pub mod state;

pub use crate::error::AmmError;
pub use crate::error::AuthError;
pub use crate::instructions::deposit::Deposit;
pub use crate::instructions::deposit::DepositInstructions;
pub use crate::instructions::initialize::Initialize;
pub use crate::instructions::initialize::InitializeBumps;
pub use crate::instructions::swap::Swap;
pub use crate::instructions::swap::SwapInstructions;
pub use crate::instructions::withdraw::Withdraw;
pub use crate::instructions::withdraw::WithdrawInstructions;
pub use crate::state::config::Address;
pub use crate::state::config::Config;
