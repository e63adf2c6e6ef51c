use vstd::prelude::*;

verus! {

/// Every reason for which an operation is rejected. An operation that fails
/// changes nothing.
#[derive(Clone, Copy, Debug, PartialEq, Eq, Structural)]
pub enum ChickenError {
    /// A quantity left the range of its integer type.
    InvalidNumericConversion,
    /// The asset offered is not the one the pool accepts.
    InvalidMint,
    /// A token account does not belong with the pool and its asset.
    InvalidTokenAccount,
    InvalidInstructionData,
    PoolNotStarted,
    /// Fees can be claimed from an ended pool only.
    PoolNotEnded,
    /// The pool's window has not opened yet.
    PoolPending,
    /// The pool's window has closed.
    PoolEnded,
    /// The pool was decommissioned.
    PoolRemoved,
    PoolNotFound,
    /// The deposit would lift a position over the pool's cap per position.
    UserDepositLimitExceeded,
    /// The deposit would lift the pool over its overall cap.
    PoolDepositLimitExceeded,
    /// A signature is missing, or an identity is not the one on record.
    Unauthorized,
    /// The account that is to hold a new pool is already funded.
    PoolMustBeEmpty,
    /// The pool record is not at the address its seeds derive.
    InvalidPoolAddress,
    /// The position record is not at the address its seeds derive.
    InvalidPoolPositionAddress,
    SerializationError,
    /// No live record could be read.
    DeserializationError,
    /// Positions or unclaimed fees are left in a pool that is to be removed.
    PoolNotEmpty,
    /// The admin record is not at the address its seeds derive.
    InvalidAdminRecordAddress,
}

impl ChickenError {
    /// The number under which the error is reported to the host: the
    /// variant's position in the declaration, counted from zero.
    pub open spec fn spec_code(&self) -> u32 {
        match *self {
            ChickenError::InvalidNumericConversion => 0,
            ChickenError::InvalidMint => 1,
            ChickenError::InvalidTokenAccount => 2,
            ChickenError::InvalidInstructionData => 3,
            ChickenError::PoolNotStarted => 4,
            ChickenError::PoolNotEnded => 5,
            ChickenError::PoolPending => 6,
            ChickenError::PoolEnded => 7,
            ChickenError::PoolRemoved => 8,
            ChickenError::PoolNotFound => 9,
            ChickenError::UserDepositLimitExceeded => 10,
            ChickenError::PoolDepositLimitExceeded => 11,
            ChickenError::Unauthorized => 12,
            ChickenError::PoolMustBeEmpty => 13,
            ChickenError::InvalidPoolAddress => 14,
            ChickenError::InvalidPoolPositionAddress => 15,
            ChickenError::SerializationError => 16,
            ChickenError::DeserializationError => 17,
            ChickenError::PoolNotEmpty => 18,
            ChickenError::InvalidAdminRecordAddress => 19,
        }
    }

    #[verifier::when_used_as_spec(spec_code)]
    pub fn code(&self) -> (c: u32)
        ensures
            c == self.spec_code(),
    {
        match *self {
            ChickenError::InvalidNumericConversion => 0,
            ChickenError::InvalidMint => 1,
            ChickenError::InvalidTokenAccount => 2,
            ChickenError::InvalidInstructionData => 3,
            ChickenError::PoolNotStarted => 4,
            ChickenError::PoolNotEnded => 5,
            ChickenError::PoolPending => 6,
            ChickenError::PoolEnded => 7,
            ChickenError::PoolRemoved => 8,
            ChickenError::PoolNotFound => 9,
            ChickenError::UserDepositLimitExceeded => 10,
            ChickenError::PoolDepositLimitExceeded => 11,
            ChickenError::Unauthorized => 12,
            ChickenError::PoolMustBeEmpty => 13,
            ChickenError::InvalidPoolAddress => 14,
            ChickenError::InvalidPoolPositionAddress => 15,
            ChickenError::SerializationError => 16,
            ChickenError::DeserializationError => 17,
            ChickenError::PoolNotEmpty => 18,
            ChickenError::InvalidAdminRecordAddress => 19,
        }
    }
}

} // verus!
