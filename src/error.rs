use vstd::prelude::*;

verus! {

/// Failures of the ledger's operations.
#[derive(Clone, Copy, Debug, PartialEq, Eq, Structural)]
pub enum InglError {
    /// A referenced record's identity does not match the expected one.
    AddressMismatch,
    /// A record's version tag is not one this ledger reads.
    InvalidStructType,
    /// The position's funds are not in the pool that the operation needs.
    InvalidFundsLocation,
    /// The operation came earlier than allowed.
    TooEarly,
    /// The operation came later than allowed, or was already done.
    TooLate,
    /// The position already voted on this proposal.
    AlreadyVoted,
    /// A checked computation left the range of its type.
    BeyondBounds,
    /// A record's validation phrase differs from the expected one.
    InvalidValPhrase,
    /// The record is not in a state that allows the operation.
    InvalidAccountData,
}

impl InglError {
    /// Numeric code of the failure, in declaration order.
    pub fn code(self) -> (r: u32)
        ensures
            r == error_code(self),
    {
        match self {
            InglError::AddressMismatch => 0,
            InglError::InvalidStructType => 1,
            InglError::InvalidFundsLocation => 2,
            InglError::TooEarly => 3,
            InglError::TooLate => 4,
            InglError::AlreadyVoted => 5,
            InglError::BeyondBounds => 6,
            InglError::InvalidValPhrase => 7,
            InglError::InvalidAccountData => 8,
        }
    }
}

pub open spec fn error_code(e: InglError) -> u32 {
    match e {
        InglError::AddressMismatch => 0,
        InglError::InvalidStructType => 1,
        InglError::InvalidFundsLocation => 2,
        InglError::TooEarly => 3,
        InglError::TooLate => 4,
        InglError::AlreadyVoted => 5,
        InglError::BeyondBounds => 6,
        InglError::InvalidValPhrase => 7,
        InglError::InvalidAccountData => 8,
    }
}

} // verus!
