use vstd::prelude::*;
use crate::actions::{refreshed_state, update_pool_state};
use crate::assertions::{check_self_pda, check_signer};
use crate::error::ChickenError;
use crate::state::{same_key, Pool, PoolState, Pubkey};

verus! {

/// The accounts of a pool's removal.
#[derive(Clone, Copy, Debug, PartialEq, Eq)]
pub struct RemovePool {
    pub pool: Pubkey,
    /// What the seeds of `pool_signer_seeds` derive for the pool on record.
    pub pool_derived: Option<Pubkey>,
    pub creator: Pubkey,
    pub creator_is_signer: bool,
}

/// Why a pool cannot be removed, the first reason that applies; `None` where
/// it can.
pub open spec fn remove_pool_rejection(
    accounts: RemovePool,
    pool: Pool,
    current_slot: u64,
) -> Option<ChickenError> {
    if !accounts.creator_is_signer || accounts.creator != pool.authority {
        Some(ChickenError::Unauthorized)
    } else if accounts.pool_derived != Some(accounts.pool) {
        Some(ChickenError::InvalidPoolAddress)
    } else if refreshed_state(pool, current_slot) != PoolState::Ended {
        Some(ChickenError::PoolEnded)
    } else if pool.users != 0 || pool.fee_amount != 0 {
        Some(ChickenError::PoolNotEmpty)
    } else {
        None
    }
}

/// The storage reserve that is free once the record has shrunk: what the
/// record needed before, less what it needs now, and nothing where it needs
/// more now.
pub open spec fn rent_to_return(previous_minimum_balance: u64, current_minimum_balance: u64) -> u64 {
    if previous_minimum_balance > current_minimum_balance {
        (previous_minimum_balance - current_minimum_balance) as u64
    } else {
        0
    }
}

/// Decommissions a pool that has ended, holds no position and owes no fee.
///
/// Only the pool's authority may do so, and it must have signed. The pool's
/// state is taken at `current_slot`. `previous_minimum_balance` is the
/// storage reserve that the record needed at its full size,
/// `current_minimum_balance` the reserve it needs at the size it is cut down
/// to. On success the pool is `Removed` for good, and the result is the
/// reserve to be handed back to the payer. A removal that is refused changes
/// nothing.
pub fn remove_pool(
    accounts: &RemovePool,
    pool: &mut Pool,
    current_slot: u64,
    previous_minimum_balance: u64,
    current_minimum_balance: u64,
) -> (removed: Result<u64, ChickenError>)
    ensures
        match removed {
            Ok(rent) => {
                &&& remove_pool_rejection(*accounts, *old(pool), current_slot) is None
                &&& rent == rent_to_return(previous_minimum_balance, current_minimum_balance)
                &&& *final(pool) == Pool { state: PoolState::Removed, ..*old(pool) }
            },
            Err(error) => {
                &&& remove_pool_rejection(*accounts, *old(pool), current_slot) == Some(error)
                &&& *final(pool) == *old(pool)
            },
        },
{
    if let Err(error) = check_signer(accounts.creator_is_signer, ChickenError::Unauthorized) {
        return Err(error);
    }
    if !same_key(&accounts.creator, &pool.authority) {
        return Err(ChickenError::Unauthorized);
    }
    if let Err(error) = check_self_pda(
        &accounts.pool_derived,
        &accounts.pool,
        ChickenError::InvalidPoolAddress,
    ) {
        return Err(error);
    }
    let mut updated: Pool = *pool;
    let _ = update_pool_state(&mut updated, current_slot);
    if updated.state != PoolState::Ended {
        return Err(ChickenError::PoolEnded);
    }
    if updated.users != 0 {
        return Err(ChickenError::PoolNotEmpty);
    }
    if updated.fee_amount != 0 {
        return Err(ChickenError::PoolNotEmpty);
    }
    let rent: u64 = previous_minimum_balance.saturating_sub(current_minimum_balance);
    updated.state = PoolState::Removed;
    *pool = updated;
    Ok(rent)
}

} // verus!
