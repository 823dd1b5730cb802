//! The operations on a pool, each on its own snapshot of what it reads.
//!
//! A pool is empty, with no shares outstanding and nothing in either reserve,
//! or seeded, with shares outstanding and something in both. The first deposit
//! seeds an empty pool. Deposits, withdrawals and swaps leave a seeded pool
//! seeded, but for the withdrawal of the whole supply, which empties it again.
//! The lock flag of the pool's record gates all three; the flag itself is
//! changed by the pool's authority alone, whatever state the pool is in.
//!
//! Every operation either succeeds as a whole or fails and changes nothing.

pub mod deposit;
pub mod initialize;
pub mod swap;
pub mod withdraw;
