use vstd::prelude::*;
use crate::state::Pubkey;

verus! {

/// What the engine reads of a token account.
#[derive(Clone, Copy, Debug, PartialEq, Eq)]
pub struct TokenAccount {
    /// The asset the account holds.
    pub mint: Pubkey,
    /// The identity that may move its balance.
    pub owner: Pubkey,
    pub amount: u64,
}

/// An address that a seed path derives, with the nonce that made it valid.
#[derive(Clone, Copy, Debug, PartialEq, Eq)]
pub struct DerivedAddress {
    pub address: Pubkey,
    pub bump: u8,
}

} // verus!
