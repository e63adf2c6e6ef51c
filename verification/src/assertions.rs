use vstd::prelude::*;
use crate::accounts::DerivedAddress;
use crate::error::ChickenError;
use crate::state::{same_key, Pubkey};

verus! {

/// Passes where the account signed; fails with `error` where it did not.
pub fn check_signer(is_signer: bool, error: ChickenError) -> (checked: Result<(), ChickenError>)
    ensures
        checked == if is_signer {
            Ok::<(), ChickenError>(())
        } else {
            Err::<(), ChickenError>(error)
        },
{
    if is_signer {
        Ok(())
    } else {
        Err(error)
    }
}

/// Passes where the account holds no storage reserve yet; fails with `error`
/// where it is funded.
pub fn check_zero_balance(lamports: u64, error: ChickenError) -> (checked: Result<
    (),
    ChickenError,
>)
    ensures
        checked == if lamports == 0 {
            Ok::<(), ChickenError>(())
        } else {
            Err::<(), ChickenError>(error)
        },
{
    if lamports == 0 {
        Ok(())
    } else {
        Err(error)
    }
}

/// Passes where the seeds derived exactly `key`; fails with `error` where
/// they derived another address or none.
pub fn check_self_pda(derived: &Option<Pubkey>, key: &Pubkey, error: ChickenError) -> (checked:
    Result<(), ChickenError>)
    ensures
        checked == if *derived == Some(*key) {
            Ok::<(), ChickenError>(())
        } else {
            Err::<(), ChickenError>(error)
        },
{
    match derived {
        Some(address) => {
            if same_key(address, key) {
                Ok(())
            } else {
                Err(error)
            }
        },
        None => Err(error),
    }
}

/// The nonce with which the seeds derived `key`; fails with `error` where
/// they derived another address or none.
pub fn find_self_pda(derived: &Option<DerivedAddress>, key: &Pubkey, error: ChickenError) -> (bump:
    Result<u8, ChickenError>)
    ensures
        bump == match *derived {
            Some(found) => if found.address == *key {
                Ok::<u8, ChickenError>(found.bump)
            } else {
                Err::<u8, ChickenError>(error)
            },
            None => Err::<u8, ChickenError>(error),
        },
{
    match derived {
        Some(found) => {
            if same_key(&found.address, key) {
                Ok(found.bump)
            } else {
                Err(error)
            }
        },
        None => Err(error),
    }
}

} // verus!
