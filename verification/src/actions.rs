use vstd::prelude::*;
use crate::error::ChickenError;
use crate::state::{Pool, PoolState};

pub mod claim_fees;
pub mod deposit;
pub mod init;
pub mod remove_pool;
pub mod time_based;
pub mod withdraw;

pub use self::claim_fees::{
    change_admin, claim_fees, initialize_admin, ChangeAdmin, ClaimFees, InitializeAdmin,
};
pub use self::deposit::{deposit, Deposit};
pub use self::init::{initialize_pool, InitializePool, InitializePoolArgs};
pub use self::remove_pool::{remove_pool, RemovePool};
pub use self::withdraw::{withdraw, Withdraw};

verus! {

/// Basis points in the whole: a rate of 10 000 is 100 %.
pub const BPS: u128 = 10_000;

/// The share of `amount` that a rate of `rate` basis points takes, rounded
/// down.
pub open spec fn bps_share(amount: int, rate: int) -> int {
    amount * rate / 10_000
}

/// A rate of nothing takes nothing, a rate of 10 000 takes the whole amount,
/// and no rate between them takes more than the amount.
pub proof fn lemma_bps_share_bounds(amount: int, rate: int)
    requires
        0 <= amount,
        0 <= rate <= 10_000,
    ensures
        bps_share(amount, 0) == 0,
        bps_share(amount, 10_000) == amount,
        0 <= bps_share(amount, rate) <= amount,
{
    assert(0 <= amount * rate <= amount * 10_000) by (nonlinear_arith)
        requires
            0 <= amount,
            0 <= rate <= 10_000,
    ;
}

/// `amount * rate / 10 000`, rounded down. The product is formed in 128 bits,
/// where it cannot overflow; the call fails only where the share itself is
/// too large for 64 bits, which takes a rate above 10 000.
pub fn bps(amount: u64, rate: u16) -> (share: Result<u64, ChickenError>)
    ensures
        bps_share(amount as int, rate as int) <= u64::MAX ==> share == Ok::<u64, ChickenError>(
            bps_share(amount as int, rate as int) as u64,
        ),
        bps_share(amount as int, rate as int) > u64::MAX ==> share == Err::<u64, ChickenError>(
            ChickenError::InvalidNumericConversion,
        ),
{
    assert(amount * rate <= u64::MAX * u16::MAX) by (nonlinear_arith)
        requires
            amount <= u64::MAX,
            rate <= u16::MAX,
    ;
    let product: u128 = (amount as u128) * (rate as u128);
    let share: u128 = product / BPS;
    if share > u64::MAX as u128 {
        Err(ChickenError::InvalidNumericConversion)
    } else {
        Ok(share as u64)
    }
}

/// The state a pool is in at `current_slot`. `Removed` stays. Otherwise the
/// pool has ended once the slot is past `end_time`, has started while the slot
/// lies in the window, both bounds included, and keeps the state it had while
/// the slot is before `start_time`.
pub open spec fn refreshed_state(pool: Pool, current_slot: u64) -> PoolState {
    if pool.state == PoolState::Removed {
        PoolState::Removed
    } else if current_slot > pool.end_time {
        PoolState::Ended
    } else if current_slot >= pool.start_time {
        PoolState::Started
    } else {
        pool.state
    }
}

/// The pool with its state brought up to `current_slot`, and nothing else
/// touched.
pub open spec fn refreshed(pool: Pool, current_slot: u64) -> Pool {
    Pool { state: refreshed_state(pool, current_slot), ..pool }
}

/// The pool after one refresh for each slot of `slots`, in order.
pub open spec fn refreshed_through(pool: Pool, slots: Seq<u64>) -> Pool
    decreases slots.len(),
{
    if slots.len() == 0 {
        pool
    } else {
        refreshed(refreshed_through(pool, slots.drop_last()), slots.last())
    }
}

/// Brings the pool's state up to `current_slot`. Never fails.
pub fn update_pool_state(pool: &mut Pool, current_slot: u64) -> (done: Result<(), ChickenError>)
    ensures
        done is Ok,
        *final(pool) == refreshed(*old(pool), current_slot),
        old(pool).state == PoolState::Removed ==> *final(pool) == *old(pool),
{
    if pool.state == PoolState::Removed {
        return Ok(());
    }
    if current_slot >= pool.start_time && current_slot <= pool.end_time {
        pool.state = PoolState::Started;
    }
    if current_slot > pool.end_time {
        pool.state = PoolState::Ended;
    }
    Ok(())
}

/// A removed pool stays removed: no refresh, at whatever slots and however
/// many of them, changes anything in it.
pub proof fn lemma_removed_is_sticky(pool: Pool, slots: Seq<u64>)
    requires
        pool.state == PoolState::Removed,
    ensures
        refreshed_through(pool, slots) == pool,
    decreases slots.len(),
{
    if slots.len() > 0 {
        lemma_removed_is_sticky(pool, slots.drop_last());
    }
}

/// Whether deposits are open: in a started pool only.
pub open spec fn active_check(state: PoolState) -> Result<(), ChickenError> {
    match state {
        PoolState::Started => Ok(()),
        PoolState::Ended => Err(ChickenError::PoolEnded),
        PoolState::Removed => Err(ChickenError::PoolRemoved),
        PoolState::Pending => Err(ChickenError::PoolPending),
    }
}

/// Whether withdrawals are open: in a started pool, and still in an ended one.
pub open spec fn withdrawable_check(state: PoolState) -> Result<(), ChickenError> {
    match state {
        PoolState::Started => Ok(()),
        PoolState::Ended => Ok(()),
        PoolState::Removed => Err(ChickenError::PoolRemoved),
        PoolState::Pending => Err(ChickenError::PoolPending),
    }
}

/// Passes where deposits are open; fails with the error that names the
/// pool's state where they are not.
pub fn assert_pool_active(pool: &Pool) -> (active: Result<(), ChickenError>)
    ensures
        active == active_check(pool.state),
{
    match pool.state {
        PoolState::Started => Ok(()),
        PoolState::Ended => Err(ChickenError::PoolEnded),
        PoolState::Removed => Err(ChickenError::PoolRemoved),
        PoolState::Pending => Err(ChickenError::PoolPending),
    }
}

/// Passes where withdrawals are open; fails with the error that names the
/// pool's state where they are not.
pub fn assert_pool_withdrawable(pool: &Pool) -> (withdrawable: Result<(), ChickenError>)
    ensures
        withdrawable == withdrawable_check(pool.state),
{
    match pool.state {
        PoolState::Started => Ok(()),
        PoolState::Ended => Ok(()),
        PoolState::Removed => Err(ChickenError::PoolRemoved),
        PoolState::Pending => Err(ChickenError::PoolPending),
    }
}

} // verus!
