use vstd::prelude::*;
use crate::accounts::TokenAccount;
use crate::actions::time_based::{
    share_pct, time_based_release, time_based_return, time_in_pool, time_in_pool_pct,
};
use crate::actions::{
    assert_pool_withdrawable, bps, bps_share, refreshed_state, update_pool_state,
    withdrawable_check,
};
use crate::assertions::{check_self_pda, check_signer};
use crate::error::ChickenError;
use crate::state::{same_key, Pool, PoolMode, PoolState, Pubkey, UserPosition};

verus! {

/// The accounts of a withdrawal.
#[derive(Clone, Copy, Debug, PartialEq, Eq)]
pub struct Withdraw {
    pub pool: Pubkey,
    pub user: Pubkey,
    pub user_is_signer: bool,
    pub pool_collateral_token_account: TokenAccount,
    pub collateral_mint: Pubkey,
    pub user_position: Pubkey,
    /// What the position's seeds derive with the nonce on record.
    pub user_position_derived: Option<Pubkey>,
}

/// What a withdrawal pays and takes.
#[derive(Clone, Copy, Debug, PartialEq, Eq)]
pub struct WithdrawReceipt {
    /// Principal and collateral due to the position, before the fee.
    pub gross_return: u64,
    /// The part of `gross_return` that comes out of the collateral reserve.
    pub collateral_released: u64,
    /// The fee kept from `gross_return`.
    pub fee: u64,
    /// What is to be moved from the pool's token account to the withdrawer's.
    pub payout: u64,
}

/// The principal that all open positions hold together: what the pool's token
/// account holds beyond fees and collateral.
pub open spec fn total_principal(pool: Pool, balance: u64) -> int {
    balance - pool.fee_amount - pool.collateral_amount
}

/// The collateral that leaves the reserve when `position` is withdrawn from
/// a pool whose positions hold `total_principal` together. Under
/// `LastOutWinner` the one position left takes the whole reserve and every
/// other position takes nothing, its own contribution staying behind. Under
/// `TimeBased` it is the refund and the rewards.
pub open spec fn collateral_release(
    pool: Pool,
    position: UserPosition,
    total_principal: int,
    current_slot: u64,
) -> int {
    match pool.mode {
        PoolMode::LastOutWinner => if pool.users == 1 {
            pool.collateral_amount as int
        } else {
            0
        },
        PoolMode::TimeBased => time_based_release(
            pool.collateral_amount as int,
            position.collateral_amount as int,
            share_pct(position.deposit_amount as int, total_principal),
            time_in_pool_pct(pool, position.deposit_time, current_slot),
        ),
    }
}

/// The collateral that leaves the reserve when `position` is withdrawn while
/// the pool's token account holds `balance`.
pub open spec fn collateral_released(
    pool: Pool,
    position: UserPosition,
    balance: u64,
    current_slot: u64,
) -> int {
    collateral_release(pool, position, total_principal(pool, balance), current_slot)
}

/// Principal and released collateral together.
pub open spec fn gross_return(
    pool: Pool,
    position: UserPosition,
    balance: u64,
    current_slot: u64,
) -> int {
    position.deposit_amount + collateral_released(pool, position, balance, current_slot)
}

/// The fee on the gross return.
pub open spec fn withdraw_fee(
    pool: Pool,
    position: UserPosition,
    balance: u64,
    current_slot: u64,
) -> int {
    bps_share(gross_return(pool, position, balance, current_slot), pool.withdraw_fee_bps as int)
}

/// What the withdrawer receives.
pub open spec fn payout(pool: Pool, position: UserPosition, balance: u64, current_slot: u64) -> int {
    gross_return(pool, position, balance, current_slot) - withdraw_fee(
        pool,
        position,
        balance,
        current_slot,
    )
}

/// Whether every quantity of the settlement stays within its integer type:
/// the principal held is not negative, the gross return fits, the fee leaves a
/// payout, the counters of the pool neither overflow nor fall below zero.
pub open spec fn settlement_fits(
    pool: Pool,
    position: UserPosition,
    balance: u64,
    current_slot: u64,
) -> bool {
    &&& total_principal(pool, balance) >= 0
    &&& gross_return(pool, position, balance, current_slot) <= u64::MAX
    &&& withdraw_fee(pool, position, balance, current_slot) <= gross_return(
        pool,
        position,
        balance,
        current_slot,
    )
    &&& pool.withdrawn + payout(pool, position, balance, current_slot) <= u64::MAX
    &&& pool.users >= 1
    &&& pool.fee_amount + withdraw_fee(pool, position, balance, current_slot) <= u64::MAX
    &&& collateral_released(pool, position, balance, current_slot) <= pool.collateral_amount
}

/// Why a withdrawal is refused, the first reason that applies; `None` where
/// it goes through.
pub open spec fn withdraw_rejection(
    accounts: Withdraw,
    pool: Pool,
    position: UserPosition,
    current_slot: u64,
) -> Option<ChickenError> {
    let token = accounts.pool_collateral_token_account;
    if !accounts.user_is_signer {
        Some(ChickenError::Unauthorized)
    } else if position == UserPosition::vacant() {
        Some(ChickenError::DeserializationError)
    } else if position.owner != accounts.user {
        Some(ChickenError::Unauthorized)
    } else if position.pool != accounts.pool {
        Some(ChickenError::InvalidPoolPositionAddress)
    } else if accounts.user_position_derived != Some(accounts.user_position) {
        Some(ChickenError::InvalidPoolPositionAddress)
    } else if withdrawable_check(refreshed_state(pool, current_slot)) is Err {
        Some(withdrawable_check(refreshed_state(pool, current_slot))->Err_0)
    } else if token.mint != accounts.collateral_mint || token.owner != accounts.pool {
        Some(ChickenError::InvalidTokenAccount)
    } else if accounts.collateral_mint != pool.collateral_mint {
        Some(ChickenError::InvalidMint)
    } else if !settlement_fits(pool, position, token.amount, current_slot) {
        Some(ChickenError::InvalidNumericConversion)
    } else {
        None
    }
}

/// The pool once `position` has been withdrawn from it: the payout is added
/// to what was ever paid out, one position fewer is open, the fee is added to
/// the fees, the released collateral has left the reserve. A pool that has no
/// position left has ended; any other is in the state of `current_slot`.
pub open spec fn pool_after_withdraw(
    pool: Pool,
    position: UserPosition,
    balance: u64,
    current_slot: u64,
) -> Pool {
    Pool {
        state: if pool.users == 1 {
            PoolState::Ended
        } else {
            refreshed_state(pool, current_slot)
        },
        withdrawn: (pool.withdrawn + payout(pool, position, balance, current_slot)) as u64,
        users: (pool.users - 1) as u32,
        fee_amount: (pool.fee_amount + withdraw_fee(pool, position, balance, current_slot)) as u64,
        collateral_amount: (pool.collateral_amount - collateral_released(
            pool,
            position,
            balance,
            current_slot,
        )) as u64,
        ..pool
    }
}

/// What a withdrawal that goes through reports.
pub open spec fn withdraw_receipt(
    pool: Pool,
    position: UserPosition,
    balance: u64,
    current_slot: u64,
) -> WithdrawReceipt {
    WithdrawReceipt {
        gross_return: gross_return(pool, position, balance, current_slot) as u64,
        collateral_released: collateral_released(pool, position, balance, current_slot) as u64,
        fee: withdraw_fee(pool, position, balance, current_slot) as u64,
        payout: payout(pool, position, balance, current_slot) as u64,
    }
}

/// Computes `collateral_release`; `None` where it is more than 64 bits hold.
pub fn release_of(
    pool: &Pool,
    position: &UserPosition,
    total_principal: u64,
    current_slot: u64,
) -> (released: Option<u64>)
    ensures
        ({
            let due = collateral_release(*pool, *position, total_principal as int, current_slot);
            if due <= u64::MAX {
                released == Some(due as u64)
            } else {
                released is None
            }
        }),
{
    match pool.mode {
        PoolMode::LastOutWinner => {
            if pool.users == 1 {
                Some(pool.collateral_amount)
            } else {
                Some(0)
            }
        },
        PoolMode::TimeBased => {
            let time_pct: u128 = time_in_pool(pool, position.deposit_time, current_slot);
            time_based_return(
                pool.collateral_amount,
                position.collateral_amount,
                position.deposit_amount,
                total_principal,
                time_pct,
            )
        },
    }
}

/// Settles the withdrawal of a whole position at `current_slot`.
///
/// The checks run in the order of `withdraw_rejection`: the withdrawer's
/// signature, the position record (it is live, it is the withdrawer's, it
/// belongs to this pool and sits at its derived address), the pool's state at
/// `current_slot`, the pool's token account and asset, and last the
/// arithmetic. A withdrawal that is refused changes nothing. One that goes
/// through updates the pool as `pool_after_withdraw` says, leaves the position
/// record vacant and returns what is to be paid.
pub fn withdraw(
    accounts: &Withdraw,
    pool: &mut Pool,
    user_position: &mut UserPosition,
    current_slot: u64,
) -> (settled: Result<WithdrawReceipt, ChickenError>)
    ensures
        match settled {
            Ok(receipt) => {
                &&& withdraw_rejection(*accounts, *old(pool), *old(user_position), current_slot)
                    is None
                &&& receipt == withdraw_receipt(
                    *old(pool),
                    *old(user_position),
                    accounts.pool_collateral_token_account.amount,
                    current_slot,
                )
                &&& *final(pool) == pool_after_withdraw(
                    *old(pool),
                    *old(user_position),
                    accounts.pool_collateral_token_account.amount,
                    current_slot,
                )
                &&& *final(user_position) == UserPosition::vacant()
            },
            Err(error) => {
                &&& withdraw_rejection(*accounts, *old(pool), *old(user_position), current_slot)
                    == Some(error)
                &&& *final(pool) == *old(pool)
                &&& *final(user_position) == *old(user_position)
            },
        },
{
    if let Err(error) = check_signer(accounts.user_is_signer, ChickenError::Unauthorized) {
        return Err(error);
    }
    if user_position.is_vacant() {
        return Err(ChickenError::DeserializationError);
    }
    if !same_key(&user_position.owner, &accounts.user) {
        return Err(ChickenError::Unauthorized);
    }
    if !same_key(&user_position.pool, &accounts.pool) {
        return Err(ChickenError::InvalidPoolPositionAddress);
    }
    if let Err(error) = check_self_pda(
        &accounts.user_position_derived,
        &accounts.user_position,
        ChickenError::InvalidPoolPositionAddress,
    ) {
        return Err(error);
    }
    let mut updated: Pool = *pool;
    let _ = update_pool_state(&mut updated, current_slot);
    if let Err(error) = assert_pool_withdrawable(&updated) {
        return Err(error);
    }
    let token = &accounts.pool_collateral_token_account;
    if !same_key(&token.mint, &accounts.collateral_mint) {
        return Err(ChickenError::InvalidTokenAccount);
    }
    if !same_key(&token.owner, &accounts.pool) {
        return Err(ChickenError::InvalidTokenAccount);
    }
    if !same_key(&accounts.collateral_mint, &updated.collateral_mint) {
        return Err(ChickenError::InvalidMint);
    }
    let held: u64 = match token.amount.checked_sub(updated.fee_amount) {
        Some(rest) => rest,
        None => return Err(ChickenError::InvalidNumericConversion),
    };
    let total_deposits: u64 = match held.checked_sub(updated.collateral_amount) {
        Some(rest) => rest,
        None => return Err(ChickenError::InvalidNumericConversion),
    };
    let released: u64 = match release_of(&updated, user_position, total_deposits, current_slot) {
        Some(released) => released,
        None => return Err(ChickenError::InvalidNumericConversion),
    };
    let gross: u64 = match user_position.deposit_amount.checked_add(released) {
        Some(gross) => gross,
        None => return Err(ChickenError::InvalidNumericConversion),
    };
    let fee: u64 = match bps(gross, updated.withdraw_fee_bps) {
        Ok(fee) => fee,
        Err(error) => return Err(error),
    };
    let final_amount: u64 = match gross.checked_sub(fee) {
        Some(rest) => rest,
        None => return Err(ChickenError::InvalidNumericConversion),
    };
    let withdrawn: u64 = match updated.withdrawn.checked_add(final_amount) {
        Some(sum) => sum,
        None => return Err(ChickenError::InvalidNumericConversion),
    };
    let users: u32 = match updated.users.checked_sub(1) {
        Some(rest) => rest,
        None => return Err(ChickenError::InvalidNumericConversion),
    };
    let fee_amount: u64 = match updated.fee_amount.checked_add(fee) {
        Some(sum) => sum,
        None => return Err(ChickenError::InvalidNumericConversion),
    };
    let collateral_amount: u64 = match updated.collateral_amount.checked_sub(released) {
        Some(rest) => rest,
        None => return Err(ChickenError::InvalidNumericConversion),
    };
    updated.withdrawn = withdrawn;
    updated.users = users;
    updated.fee_amount = fee_amount;
    updated.collateral_amount = collateral_amount;
    if users == 0 {
        updated.state = PoolState::Ended;
    }
    *pool = updated;
    *user_position = UserPosition::default();
    Ok(
        WithdrawReceipt {
            gross_return: gross,
            collateral_released: released,
            fee,
            payout: final_amount,
        },
    )
}

/// A position can be withdrawn once. The withdrawal leaves its record vacant,
/// and a vacant record is refused whoever asks, at whatever slot and whatever
/// state the pool is in: for want of a signature, or else because there is no
/// position to read. Nothing is paid and nothing changes.
pub proof fn lemma_withdrawn_position_is_gone(
    accounts: Withdraw,
    pool: Pool,
    current_slot: u64,
)
    ensures
        withdraw_rejection(accounts, pool, UserPosition::vacant(), current_slot) == Some(
            if accounts.user_is_signer {
                ChickenError::DeserializationError
            } else {
                ChickenError::Unauthorized
            },
        ),
{
}

} // verus!
