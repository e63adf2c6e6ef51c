use vstd::prelude::*;
use crate::accounts::{DerivedAddress, TokenAccount};
use crate::actions::{
    active_check, assert_pool_active, bps, bps_share, lemma_bps_share_bounds, refreshed_state,
    update_pool_state,
};
use crate::assertions::{check_self_pda, check_signer, find_self_pda};
use crate::error::ChickenError;
use crate::state::{same_key, Pool, Pubkey, UserPosition};

verus! {

/// The accounts of a deposit.
#[derive(Clone, Copy, Debug, PartialEq, Eq)]
pub struct Deposit {
    pub pool: Pubkey,
    /// What the seeds of `pool_signer_seeds` derive for the pool on record.
    pub pool_derived: Option<Pubkey>,
    pub user: Pubkey,
    pub user_is_signer: bool,
    pub pool_collateral_token_account: TokenAccount,
    pub collateral_mint: Pubkey,
    /// Where the depositor's position record lives.
    pub user_position: Pubkey,
    /// What the position's seeds derive: for a vacant slot the address found
    /// with its nonce, for a live position the address made with the nonce on
    /// record.
    pub user_position_derived: Option<DerivedAddress>,
}

/// How a deposit is split.
#[derive(Clone, Copy, Debug, PartialEq, Eq)]
pub struct DepositReceipt {
    /// The fee kept by the pool.
    pub fee: u64,
    /// The part that goes into the collateral reserve.
    pub collateral: u64,
    /// The principal credited to the position.
    pub net: u64,
}

/// The fee on a deposit of `amount`.
pub open spec fn deposit_fee(pool: Pool, amount: u64) -> int {
    bps_share(amount as int, pool.deposit_fee_bps as int)
}

/// The collateral taken from a deposit of `amount`: a share of what the fee
/// leaves.
pub open spec fn deposit_collateral(pool: Pool, amount: u64) -> int {
    bps_share(amount - deposit_fee(pool, amount), pool.collateral_bps as int)
}

/// The principal that a deposit of `amount` adds to a position.
pub open spec fn net_principal(pool: Pool, amount: u64) -> int {
    amount - deposit_fee(pool, amount) - deposit_collateral(pool, amount)
}

/// Whether fee and collateral can be taken out of `amount`. They always can
/// while neither rate is above 10 000.
pub open spec fn split_fits(pool: Pool, amount: u64) -> bool {
    &&& deposit_fee(pool, amount) <= amount
    &&& deposit_collateral(pool, amount) <= amount - deposit_fee(pool, amount)
}

/// While neither rate is above 10 000 every amount can be split, and fee,
/// collateral and principal are exactly the amount.
pub proof fn lemma_split_of_valid_rates(pool: Pool, amount: u64)
    requires
        pool.deposit_fee_bps <= 10_000,
        pool.collateral_bps <= 10_000,
    ensures
        split_fits(pool, amount),
        0 <= net_principal(pool, amount),
        deposit_fee(pool, amount) + deposit_collateral(pool, amount) + net_principal(pool, amount)
            == amount,
{
    lemma_bps_share_bounds(amount as int, pool.deposit_fee_bps as int);
    lemma_bps_share_bounds(amount - deposit_fee(pool, amount), pool.collateral_bps as int);
}

/// Whether a deposit of `amount` would lift what the pool's token account
/// holds over the pool's overall cap.
pub open spec fn over_pool_limit(pool: Pool, balance: u64, amount: u64) -> bool {
    pool.total_deposit_limit matches Some(limit) && balance + amount > limit
}

/// Whether a deposit of `amount` would lift a position that holds `deposited`
/// over the pool's cap per position.
pub open spec fn over_position_limit(pool: Pool, deposited: u64, amount: u64) -> bool {
    pool.max_deposit matches Some(limit) && deposited + amount > limit
}

/// The position that a deposit adds to: the one on record, or a fresh one of
/// the depositor where the slot is vacant.
pub open spec fn position_before_deposit(
    accounts: Deposit,
    position: UserPosition,
) -> UserPosition {
    if position == UserPosition::vacant() {
        UserPosition::opened(
            accounts.user,
            accounts.pool,
            match accounts.user_position_derived {
                Some(found) => found.bump,
                None => 0,
            },
        )
    } else {
        position
    }
}

/// Whether the sums of a deposit stay within their integer types.
pub open spec fn deposit_fits(
    accounts: Deposit,
    pool: Pool,
    position: UserPosition,
    amount: u64,
) -> bool {
    let before = position_before_deposit(accounts, position);
    &&& pool.users + 1 <= u32::MAX
    &&& pool.fee_amount + deposit_fee(pool, amount) <= u64::MAX
    &&& pool.collateral_amount + deposit_collateral(pool, amount) <= u64::MAX
    &&& before.collateral_amount + deposit_collateral(pool, amount) <= u64::MAX
    &&& before.deposit_amount + net_principal(pool, amount) <= u64::MAX
}

/// Why the position record is refused: a vacant slot must sit at the address
/// found for the depositor, a live position at the address made with the nonce
/// on record.
pub open spec fn position_address_rejection(
    accounts: Deposit,
    position: UserPosition,
) -> Option<ChickenError> {
    let at_address = accounts.user_position_derived matches Some(found) && found.address
        == accounts.user_position;
    if at_address {
        None
    } else if position == UserPosition::vacant() {
        Some(ChickenError::InvalidPoolAddress)
    } else {
        Some(ChickenError::InvalidPoolPositionAddress)
    }
}

/// Why a deposit is refused, the first reason that applies; `None` where it
/// goes through.
pub open spec fn deposit_rejection(
    accounts: Deposit,
    pool: Pool,
    position: UserPosition,
    amount: u64,
    current_slot: u64,
) -> Option<ChickenError> {
    let token = accounts.pool_collateral_token_account;
    if !accounts.user_is_signer {
        Some(ChickenError::Unauthorized)
    } else if token.mint != accounts.collateral_mint || token.owner != accounts.pool {
        Some(ChickenError::InvalidTokenAccount)
    } else if accounts.collateral_mint != pool.collateral_mint {
        Some(ChickenError::InvalidMint)
    } else if accounts.pool_derived != Some(accounts.pool) {
        Some(ChickenError::InvalidPoolAddress)
    } else if position_address_rejection(accounts, position) is Some {
        position_address_rejection(accounts, position)
    } else if active_check(refreshed_state(pool, current_slot)) is Err {
        Some(active_check(refreshed_state(pool, current_slot))->Err_0)
    } else if !split_fits(pool, amount) {
        Some(ChickenError::InvalidNumericConversion)
    } else if over_pool_limit(pool, token.amount, amount) {
        Some(ChickenError::PoolDepositLimitExceeded)
    } else if over_position_limit(
        pool,
        position_before_deposit(accounts, position).deposit_amount,
        amount,
    ) {
        Some(ChickenError::UserDepositLimitExceeded)
    } else if !deposit_fits(accounts, pool, position, amount) {
        Some(ChickenError::InvalidNumericConversion)
    } else {
        None
    }
}

/// The pool once `amount` has been deposited: one more deposit is open, fee
/// and collateral are added to their sums, the state is that of
/// `current_slot`.
pub open spec fn pool_after_deposit(pool: Pool, amount: u64, current_slot: u64) -> Pool {
    Pool {
        state: refreshed_state(pool, current_slot),
        users: (pool.users + 1) as u32,
        fee_amount: (pool.fee_amount + deposit_fee(pool, amount)) as u64,
        collateral_amount: (pool.collateral_amount + deposit_collateral(pool, amount)) as u64,
        ..pool
    }
}

/// The position once `amount` has been deposited: collateral and principal
/// are added to what it held, and the time of the deposit is kept where none
/// was on record.
pub open spec fn position_after_deposit(
    accounts: Deposit,
    pool: Pool,
    position: UserPosition,
    amount: u64,
    current_slot: u64,
) -> UserPosition {
    let before = position_before_deposit(accounts, position);
    UserPosition {
        deposit_time: if before.deposit_time == 0 {
            current_slot
        } else {
            before.deposit_time
        },
        collateral_amount: (before.collateral_amount + deposit_collateral(pool, amount)) as u64,
        deposit_amount: (before.deposit_amount + net_principal(pool, amount)) as u64,
        ..before
    }
}

/// What a deposit that goes through reports.
pub open spec fn deposit_receipt(pool: Pool, amount: u64) -> DepositReceipt {
    DepositReceipt {
        fee: deposit_fee(pool, amount) as u64,
        collateral: deposit_collateral(pool, amount) as u64,
        net: net_principal(pool, amount) as u64,
    }
}

/// Splits `amount` into fee, collateral and principal.
pub fn split_deposit(pool: &Pool, amount: u64) -> (split: Result<DepositReceipt, ChickenError>)
    ensures
        split == if split_fits(*pool, amount) {
            Ok::<DepositReceipt, ChickenError>(deposit_receipt(*pool, amount))
        } else {
            Err::<DepositReceipt, ChickenError>(ChickenError::InvalidNumericConversion)
        },
{
    let fee: u64 = match bps(amount, pool.deposit_fee_bps) {
        Ok(fee) => fee,
        Err(error) => return Err(error),
    };
    let after_fee: u64 = match amount.checked_sub(fee) {
        Some(rest) => rest,
        None => return Err(ChickenError::InvalidNumericConversion),
    };
    let collateral: u64 = match bps(after_fee, pool.collateral_bps) {
        Ok(collateral) => collateral,
        Err(error) => return Err(error),
    };
    let net: u64 = match after_fee.checked_sub(collateral) {
        Some(rest) => rest,
        None => return Err(ChickenError::InvalidNumericConversion),
    };
    Ok(DepositReceipt { fee, collateral, net })
}

/// Settles a deposit of `amount` at `current_slot`.
///
/// The checks run in the order of `deposit_rejection`: the depositor's
/// signature, the pool's token account and asset, the address of the pool
/// record, the address of the position record, the pool's state at
/// `current_slot`, the split of the amount, the two caps, and last the sums. A
/// deposit that is refused changes nothing: the caller moves `amount` into the
/// pool's token account only after the call has returned `Ok`. One that goes
/// through updates pool and position as `pool_after_deposit` and
/// `position_after_deposit` say; a vacant slot becomes a position of the
/// depositor.
pub fn deposit(
    accounts: &Deposit,
    pool: &mut Pool,
    user_position: &mut UserPosition,
    amount: u64,
    current_slot: u64,
) -> (settled: Result<DepositReceipt, ChickenError>)
    ensures
        match settled {
            Ok(receipt) => {
                &&& deposit_rejection(
                    *accounts,
                    *old(pool),
                    *old(user_position),
                    amount,
                    current_slot,
                ) is None
                &&& receipt == deposit_receipt(*old(pool), amount)
                &&& *final(pool) == pool_after_deposit(*old(pool), amount, current_slot)
                &&& *final(user_position) == position_after_deposit(
                    *accounts,
                    *old(pool),
                    *old(user_position),
                    amount,
                    current_slot,
                )
            },
            Err(error) => {
                &&& deposit_rejection(
                    *accounts,
                    *old(pool),
                    *old(user_position),
                    amount,
                    current_slot,
                ) == Some(error)
                &&& *final(pool) == *old(pool)
                &&& *final(user_position) == *old(user_position)
            },
        },
{
    if let Err(error) = check_signer(accounts.user_is_signer, ChickenError::Unauthorized) {
        return Err(error);
    }
    let token = &accounts.pool_collateral_token_account;
    if !same_key(&token.mint, &accounts.collateral_mint) {
        return Err(ChickenError::InvalidTokenAccount);
    }
    if !same_key(&token.owner, &accounts.pool) {
        return Err(ChickenError::InvalidTokenAccount);
    }
    if !same_key(&accounts.collateral_mint, &pool.collateral_mint) {
        return Err(ChickenError::InvalidMint);
    }
    if let Err(error) = check_self_pda(
        &accounts.pool_derived,
        &accounts.pool,
        ChickenError::InvalidPoolAddress,
    ) {
        return Err(error);
    }
    let mut position: UserPosition = if user_position.is_vacant() {
        let bump: u8 = match find_self_pda(
            &accounts.user_position_derived,
            &accounts.user_position,
            ChickenError::InvalidPoolAddress,
        ) {
            Ok(bump) => bump,
            Err(error) => return Err(error),
        };
        UserPosition::new(accounts.user, accounts.pool, bump)
    } else {
        if let Err(error) = find_self_pda(
            &accounts.user_position_derived,
            &accounts.user_position,
            ChickenError::InvalidPoolPositionAddress,
        ) {
            return Err(error);
        }
        *user_position
    };
    let mut updated: Pool = *pool;
    let _ = update_pool_state(&mut updated, current_slot);
    if let Err(error) = assert_pool_active(&updated) {
        return Err(error);
    }
    let split: DepositReceipt = match split_deposit(&updated, amount) {
        Ok(split) => split,
        Err(error) => return Err(error),
    };
    if let Some(tdl) = updated.total_deposit_limit {
        if token.amount as u128 + amount as u128 > tdl as u128 {
            return Err(ChickenError::PoolDepositLimitExceeded);
        }
    }
    if let Some(deposit_limit) = updated.max_deposit {
        if position.deposit_amount as u128 + amount as u128 > deposit_limit as u128 {
            return Err(ChickenError::UserDepositLimitExceeded);
        }
    }
    let users: u32 = match updated.users.checked_add(1) {
        Some(sum) => sum,
        None => return Err(ChickenError::InvalidNumericConversion),
    };
    let fee_amount: u64 = match updated.fee_amount.checked_add(split.fee) {
        Some(sum) => sum,
        None => return Err(ChickenError::InvalidNumericConversion),
    };
    let collateral_amount: u64 = match updated.collateral_amount.checked_add(split.collateral) {
        Some(sum) => sum,
        None => return Err(ChickenError::InvalidNumericConversion),
    };
    let position_collateral: u64 = match position.collateral_amount.checked_add(split.collateral) {
        Some(sum) => sum,
        None => return Err(ChickenError::InvalidNumericConversion),
    };
    let position_deposit: u64 = match position.deposit_amount.checked_add(split.net) {
        Some(sum) => sum,
        None => return Err(ChickenError::InvalidNumericConversion),
    };
    updated.users = users;
    updated.fee_amount = fee_amount;
    updated.collateral_amount = collateral_amount;
    if position.deposit_time == 0 {
        position.deposit_time = current_slot;
    }
    position.collateral_amount = position_collateral;
    position.deposit_amount = position_deposit;
    *pool = updated;
    *user_position = position;
    Ok(split)
}

} // verus!
