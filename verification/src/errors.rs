//! The errors the contract reports.
use vstd::prelude::*;

verus! {

/// All contract-level errors.
#[derive(Clone, Copy, Debug, PartialEq, Eq, PartialOrd, Ord, Structural)]
pub enum ContractError {
    /// Escrow ID does not exist in storage
    NotFound,
    /// Caller is not authorized to perform this action
    Unauthorized,
    /// Escrow is not in the required state for this operation
    InvalidState,
    /// The deadline has already passed
    DeadlinePassed,
    /// The deadline has not been reached yet
    DeadlineNotReached,
    /// Amount must be greater than zero
    InvalidAmount,
    /// An escrow with this ID already exists
    AlreadyExists,
}

impl ContractError {
    /// The number under which the error is reported to callers of the contract.
    pub fn code(&self) -> (code: u32)
        ensures
            code == match *self {
                ContractError::NotFound => 1u32,
                ContractError::Unauthorized => 2,
                ContractError::InvalidState => 3,
                ContractError::DeadlinePassed => 4,
                ContractError::DeadlineNotReached => 5,
                ContractError::InvalidAmount => 6,
                ContractError::AlreadyExists => 7,
            },
    {
        match self {
            ContractError::NotFound => 1,
            ContractError::Unauthorized => 2,
            ContractError::InvalidState => 3,
            ContractError::DeadlinePassed => 4,
            ContractError::DeadlineNotReached => 5,
            ContractError::InvalidAmount => 6,
            ContractError::AlreadyExists => 7,
        }
    }
}

} // verus!
