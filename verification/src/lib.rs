//! The settlement engine of a deposit pool that is open for a fixed window of
//! time.
//!
//! Depositors pay a token into a shared pool. Part of every deposit goes into
//! a collateral reserve that all of them share, and the reserve is handed back
//! on withdrawal by one of two schemes, both of which favour those who leave
//! late. This crate holds the pool's lifecycle, the fee arithmetic and the two
//! schemes as functions on plain values, each with a contract that Verus
//! proves. Storing records, moving tokens, deriving addresses and reading the
//! clock are left to the caller.
//!
//! - `state` and `accounts` hold the records and what is read of accounts.
//! - `actions` holds the operations: creating a pool, deposits, withdrawals,
//!   fee claims, the admin record and the removal of a pool.
//! - `seeds` holds the seed paths of the derived addresses.
//! - `ledger` models a pool with its token account and positions, and states
//!   what holds of every sequence of operations.
pub mod accounts;
pub mod actions;
pub mod assertions;
pub mod error;
pub mod ledger;
pub mod seeds;
pub mod state;

use vstd::prelude::*;

verus! {

/// The fee on every deposit, in basis points.
pub const DEPOSIT_FEE_BPS: u16 = 10;

/// The fee on every withdrawal, in basis points.
pub const WITHDRAW_FEE_BPS: u16 = 10;

} // verus!
