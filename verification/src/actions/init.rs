use vstd::prelude::*;
use crate::accounts::{DerivedAddress, TokenAccount};
use crate::assertions::{check_zero_balance, find_self_pda};
use crate::error::ChickenError;
use crate::state::{same_key, Pool, PoolMode, PoolState, Pubkey};
use crate::{DEPOSIT_FEE_BPS, WITHDRAW_FEE_BPS};

verus! {

/// The accounts of a pool's creation.
#[derive(Clone, Copy, Debug, PartialEq, Eq)]
pub struct InitializePool {
    /// Where the pool record is to live.
    pub pool: Pubkey,
    /// What that account holds in storage reserve before the call.
    pub pool_lamports: u64,
    /// What the seeds of `pool_seeds` derive; `None` where they derive nothing.
    pub pool_derived: Option<DerivedAddress>,
    pub creator: Pubkey,
    pub pool_collateral_mint: Pubkey,
    /// Whether the account at `pool_collateral_mint` holds a mint.
    pub pool_collateral_mint_is_mint: bool,
    /// The pool's token account; `None` where the account holds none.
    pub pool_collateral_token_account: Option<TokenAccount>,
}

/// What the creator of a pool chooses.
#[derive(Clone, Copy, Debug, PartialEq, Eq)]
pub struct InitializePoolArgs {
    pub pool_id: [u8; 16],
    pub pool_mode: PoolMode,
    pub collateral_bps: u16,
    pub start_time: u64,
    pub end_time: u64,
    pub minimum_deposit: u64,
    pub total_deposit_limit: Option<u64>,
    pub max_deposit: Option<u64>,
}

/// Why a pool cannot be created, the first reason that applies; `None` where
/// it can.
pub open spec fn initialize_pool_rejection(accounts: InitializePool) -> Option<
    ChickenError,
> {
    if accounts.pool_lamports != 0 {
        Some(ChickenError::PoolMustBeEmpty)
    } else if !accounts.pool_collateral_mint_is_mint {
        Some(ChickenError::InvalidMint)
    } else if !(accounts.pool_collateral_token_account matches Some(token) && token.mint
        == accounts.pool_collateral_mint) {
        Some(ChickenError::InvalidTokenAccount)
    } else if !(accounts.pool_derived matches Some(found) && found.address == accounts.pool) {
        Some(ChickenError::InvalidPoolAddress)
    } else {
        None
    }
}

/// The pool as it is created: pending, empty, with the standard fees, with
/// the creator as its authority and with what the creator chose.
pub open spec fn created_pool(accounts: InitializePool, args: InitializePoolArgs) -> Pool {
    Pool {
        state: PoolState::Pending,
        bump: accounts.pool_derived->Some_0.bump,
        creator: accounts.creator,
        deposit_fee_bps: DEPOSIT_FEE_BPS,
        withdraw_fee_bps: WITHDRAW_FEE_BPS,
        collateral_bps: args.collateral_bps,
        collateral_amount: 0,
        fee_amount: 0,
        mode: args.pool_mode,
        start_time: args.start_time,
        end_time: args.end_time,
        min_deposit: args.minimum_deposit,
        users: 0,
        withdrawn: 0,
        pool_id: args.pool_id,
        authority: accounts.creator,
        collateral_mint: accounts.pool_collateral_mint,
        max_deposit: args.max_deposit,
        total_deposit_limit: args.total_deposit_limit,
    }
}

/// Creates the record of a new pool.
///
/// The account that is to hold it must be unfunded, the asset's account must
/// hold a mint, the pool's token account must hold that asset, and the pool's
/// address must be the one its seeds derive.
pub fn initialize_pool(accounts: &InitializePool, args: InitializePoolArgs) -> (created:
    Result<Pool, ChickenError>)
    ensures
        created == match initialize_pool_rejection(*accounts) {
            Some(error) => Err::<Pool, ChickenError>(error),
            None => Ok::<Pool, ChickenError>(created_pool(*accounts, args)),
        },
{
    if let Err(error) = check_zero_balance(accounts.pool_lamports, ChickenError::PoolMustBeEmpty) {
        return Err(error);
    }
    if !accounts.pool_collateral_mint_is_mint {
        return Err(ChickenError::InvalidMint);
    }
    match &accounts.pool_collateral_token_account {
        Some(token) => {
            if !same_key(&token.mint, &accounts.pool_collateral_mint) {
                return Err(ChickenError::InvalidTokenAccount);
            }
        },
        None => {
            return Err(ChickenError::InvalidTokenAccount);
        },
    }
    let bump: u8 = match find_self_pda(
        &accounts.pool_derived,
        &accounts.pool,
        ChickenError::InvalidPoolAddress,
    ) {
        Ok(bump) => bump,
        Err(error) => return Err(error),
    };
    Ok(
        Pool {
            state: PoolState::Pending,
            bump,
            creator: accounts.creator,
            deposit_fee_bps: DEPOSIT_FEE_BPS,
            withdraw_fee_bps: WITHDRAW_FEE_BPS,
            collateral_bps: args.collateral_bps,
            collateral_amount: 0,
            fee_amount: 0,
            mode: args.pool_mode,
            start_time: args.start_time,
            end_time: args.end_time,
            min_deposit: args.minimum_deposit,
            users: 0,
            withdrawn: 0,
            pool_id: args.pool_id,
            authority: accounts.creator,
            collateral_mint: accounts.pool_collateral_mint,
            max_deposit: args.max_deposit,
            total_deposit_limit: args.total_deposit_limit,
        },
    )
}

} // verus!
