//! A staking-rewards accrual engine.
//!
//! Participants lock stake tokens into a shared pool and continuously accrue
//! a reward token, proportional to their share of the pool and to elapsed
//! time. An administrator funds the reward reserve; participants stake,
//! unstake, and claim independently.
//!
//! This crate holds the verified ledger core: the pool and participant
//! records, the accrual engine, and the five operation handlers, each a pure
//! state transition from the records and the current time to new records and
//! the token transfer the host must perform. Account storage, signature
//! checks, the clock, and the actual token moves belong to the hosting
//! environment, which commits an operation's outputs only as a whole.

pub mod accrual;
pub mod errors;
pub mod laws;
pub mod ops;
pub mod state;
