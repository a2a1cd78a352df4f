use vstd::prelude::*;

verus! {

/// Failure reported by the value ledger when it could not move an asset,
/// carried with the ledger's own error code.
#[derive(Debug, Clone, Copy, PartialEq, Eq, Structural)]
pub struct TransferError {
    pub code: u32,
}

/// Why an escrow operation was refused.
#[derive(Debug, Clone, Copy, PartialEq, Eq, Structural)]
pub enum EscrowError {
    /// `deposit` with a non-positive amount.
    InvalidAmount,
    /// `deposit` with a zero timeout.
    InvalidTimeout,
    /// The operation needs a populated vault and there is none.
    NotFound,
    /// `claim` before the timeout has elapsed since the last ping.
    NotExpired,
    /// `deposit` onto a vault that is already populated.
    AlreadyActive,
    /// The caller could not prove it acts as the depositor.
    Unauthorized,
    /// The value ledger refused the transfer.
    Transfer(TransferError),
}

impl EscrowError {
    /// The numeric code under which the error is reported to callers.
    pub open spec fn spec_code(self) -> u32 {
        match self {
            EscrowError::InvalidAmount => 1,
            EscrowError::InvalidTimeout => 2,
            EscrowError::NotFound => 3,
            EscrowError::NotExpired => 4,
            EscrowError::AlreadyActive => 5,
            EscrowError::Unauthorized => 6,
            EscrowError::Transfer(_) => 7,
        }
    }

    pub fn code(&self) -> (r: u32)
        ensures
            r == self.spec_code(),
    {
        match self {
            EscrowError::InvalidAmount => 1,
            EscrowError::InvalidTimeout => 2,
            EscrowError::NotFound => 3,
            EscrowError::NotExpired => 4,
            EscrowError::AlreadyActive => 5,
            EscrowError::Unauthorized => 6,
            EscrowError::Transfer(_) => 7,
        }
    }
}

} // verus!
