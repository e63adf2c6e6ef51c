use vstd::prelude::*;
use crate::accounts::{DerivedAddress, TokenAccount};
use crate::actions::{refreshed_state, update_pool_state};
use crate::assertions::{check_self_pda, check_signer, find_self_pda};
use crate::error::ChickenError;
use crate::state::{same_key, AdminRecord, Pool, PoolState, Pubkey};

verus! {

/// The accounts of a fee claim.
#[derive(Clone, Copy, Debug, PartialEq, Eq)]
pub struct ClaimFees {
    pub admin: Pubkey,
    pub pool: Pubkey,
    pub pool_collateral_token_account: TokenAccount,
    pub admin_token_account: TokenAccount,
    pub collateral_mint: Pubkey,
}

/// The accounts of the admin record's creation.
#[derive(Clone, Copy, Debug, PartialEq, Eq)]
pub struct InitializeAdmin {
    pub admin: Pubkey,
    pub admin_is_signer: bool,
    pub admin_record: Pubkey,
    /// What the seeds of `admin_seeds` derive, with the nonce found.
    pub admin_record_derived: Option<DerivedAddress>,
}

/// The accounts of an admin rotation.
#[derive(Clone, Copy, Debug, PartialEq, Eq)]
pub struct ChangeAdmin {
    pub admin: Pubkey,
    pub admin_is_signer: bool,
    pub new_admin: Pubkey,
    pub admin_record: Pubkey,
    /// What the seeds of `admin_signer_seeds` derive with the nonce on record.
    pub admin_record_derived: Option<Pubkey>,
}

/// Whether `record` exists and names `identity`.
pub open spec fn names_admin(record: Option<AdminRecord>, identity: [u8; 32]) -> bool {
    record matches Some(held) && held.admin == identity
}

/// Why fees cannot be claimed, the first reason that applies; `None` where
/// they can.
pub open spec fn claim_fees_rejection(
    accounts: ClaimFees,
    admin_record: Option<AdminRecord>,
    pool: Pool,
    current_slot: u64,
) -> Option<ChickenError> {
    let token = accounts.pool_collateral_token_account;
    if !names_admin(admin_record, accounts.admin) {
        Some(ChickenError::Unauthorized)
    } else if refreshed_state(pool, current_slot) != PoolState::Ended {
        Some(ChickenError::PoolNotEnded)
    } else if accounts.admin_token_account.owner != accounts.admin {
        Some(ChickenError::Unauthorized)
    } else if token.mint != accounts.collateral_mint || token.owner != accounts.pool {
        Some(ChickenError::InvalidTokenAccount)
    } else if accounts.collateral_mint != pool.collateral_mint {
        Some(ChickenError::InvalidMint)
    } else {
        None
    }
}

/// `true` exactly when `record` exists and names `identity`.
fn record_names(record: &Option<AdminRecord>, identity: &[u8; 32]) -> (named: bool)
    ensures
        named == names_admin(*record, *identity),
{
    match record {
        Some(held) => same_key(&held.admin, identity),
        None => false,
    }
}

/// Takes the fees out of an ended pool.
///
/// The claimant must be the identity on the admin record, the pool must have
/// ended at `current_slot`, the receiving token account must be the
/// claimant's, and the pool's token account must be the pool's and hold the
/// pool's asset. On success the pool owes no fee any more, and the result is
/// what it owed: the amount to move to the claimant's token account. A claim
/// that is refused changes nothing.
pub fn claim_fees(
    accounts: &ClaimFees,
    admin_record: &Option<AdminRecord>,
    pool: &mut Pool,
    current_slot: u64,
) -> (claimed: Result<u64, ChickenError>)
    ensures
        match claimed {
            Ok(fees) => {
                &&& claim_fees_rejection(*accounts, *admin_record, *old(pool), current_slot)
                    is None
                &&& fees == old(pool).fee_amount
                &&& *final(pool) == Pool { state: PoolState::Ended, fee_amount: 0, ..*old(pool) }
            },
            Err(error) => {
                &&& claim_fees_rejection(*accounts, *admin_record, *old(pool), current_slot)
                    == Some(error)
                &&& *final(pool) == *old(pool)
            },
        },
{
    if !record_names(admin_record, &accounts.admin) {
        return Err(ChickenError::Unauthorized);
    }
    let mut updated: Pool = *pool;
    let _ = update_pool_state(&mut updated, current_slot);
    if updated.state != PoolState::Ended {
        return Err(ChickenError::PoolNotEnded);
    }
    if !same_key(&accounts.admin_token_account.owner, &accounts.admin) {
        return Err(ChickenError::Unauthorized);
    }
    let token = &accounts.pool_collateral_token_account;
    if !same_key(&token.mint, &accounts.collateral_mint) {
        return Err(ChickenError::InvalidTokenAccount);
    }
    if !same_key(&token.owner, &accounts.pool) {
        return Err(ChickenError::InvalidTokenAccount);
    }
    if !same_key(&accounts.collateral_mint, &updated.collateral_mint) {
        return Err(ChickenError::InvalidMint);
    }
    let fee_amount: u64 = updated.fee_amount;
    updated.fee_amount = 0;
    *pool = updated;
    Ok(fee_amount)
}

/// Why the admin record cannot be set up, the first reason that applies;
/// `None` where it can.
pub open spec fn initialize_admin_rejection(
    accounts: InitializeAdmin,
    admin_record: Option<AdminRecord>,
) -> Option<ChickenError> {
    if !accounts.admin_is_signer {
        Some(ChickenError::Unauthorized)
    } else if admin_record is Some {
        if names_admin(admin_record, accounts.admin) {
            None
        } else {
            Some(ChickenError::Unauthorized)
        }
    } else if !(accounts.admin_record_derived matches Some(found) && found.address
        == accounts.admin_record) {
        Some(ChickenError::InvalidAdminRecordAddress)
    } else {
        None
    }
}

/// Creates the admin record with the caller as admin.
///
/// The caller must have signed. Where no record exists, one is made at the
/// address its seeds derive, naming the caller. A record that exists is never
/// seeded again: the call passes for the identity it names and leaves it as it
/// is, and fails with `Unauthorized` for any other. A call that fails changes
/// nothing.
pub fn initialize_admin(accounts: &InitializeAdmin, admin_record: &mut Option<AdminRecord>) -> (done:
    Result<(), ChickenError>)
    ensures
        match done {
            Ok(_) => {
                &&& initialize_admin_rejection(*accounts, *old(admin_record)) is None
                &&& *final(admin_record) == match *old(admin_record) {
                    Some(held) => Some(held),
                    None => Some(
                        AdminRecord {
                            admin: accounts.admin,
                            bump: accounts.admin_record_derived->Some_0.bump,
                        },
                    ),
                }
            },
            Err(error) => {
                &&& initialize_admin_rejection(*accounts, *old(admin_record)) == Some(error)
                &&& *final(admin_record) == *old(admin_record)
            },
        },
{
    if let Err(error) = check_signer(accounts.admin_is_signer, ChickenError::Unauthorized) {
        return Err(error);
    }
    if admin_record.is_some() {
        if record_names(admin_record, &accounts.admin) {
            return Ok(());
        } else {
            return Err(ChickenError::Unauthorized);
        }
    }
    let bump: u8 = match find_self_pda(
        &accounts.admin_record_derived,
        &accounts.admin_record,
        ChickenError::InvalidAdminRecordAddress,
    ) {
        Ok(bump) => bump,
        Err(error) => return Err(error),
    };
    *admin_record = Some(AdminRecord { admin: accounts.admin, bump });
    Ok(())
}

/// Why the admin cannot be changed, the first reason that applies; `None`
/// where it can.
pub open spec fn change_admin_rejection(
    accounts: ChangeAdmin,
    admin_record: Option<AdminRecord>,
) -> Option<ChickenError> {
    if !accounts.admin_is_signer || !names_admin(admin_record, accounts.admin) {
        Some(ChickenError::Unauthorized)
    } else if accounts.admin_record_derived != Some(accounts.admin_record) {
        Some(ChickenError::InvalidAdminRecordAddress)
    } else {
        None
    }
}

/// Hands the admin role to `new_admin`.
///
/// The caller must have signed and be the identity on record, and the record
/// must sit at the address its seeds derive. On success the record names
/// `new_admin` and keeps its nonce. A call that fails changes nothing.
pub fn change_admin(accounts: &ChangeAdmin, admin_record: &mut Option<AdminRecord>) -> (done:
    Result<(), ChickenError>)
    ensures
        match done {
            Ok(_) => {
                &&& change_admin_rejection(*accounts, *old(admin_record)) is None
                &&& *final(admin_record) == Some(
                    AdminRecord {
                        admin: accounts.new_admin,
                        bump: old(admin_record)->Some_0.bump,
                    },
                )
            },
            Err(error) => {
                &&& change_admin_rejection(*accounts, *old(admin_record)) == Some(error)
                &&& *final(admin_record) == *old(admin_record)
            },
        },
{
    if let Err(error) = check_signer(accounts.admin_is_signer, ChickenError::Unauthorized) {
        return Err(error);
    }
    if !record_names(admin_record, &accounts.admin) {
        return Err(ChickenError::Unauthorized);
    }
    if let Err(error) = check_self_pda(
        &accounts.admin_record_derived,
        &accounts.admin_record,
        ChickenError::InvalidAdminRecordAddress,
    ) {
        return Err(error);
    }
    let bump: u8 = match admin_record {
        Some(held) => held.bump,
        None => 0,
    };
    *admin_record = Some(AdminRecord { admin: accounts.new_admin, bump });
    Ok(())
}

} // verus!
