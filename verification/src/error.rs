//! The error kinds that the token's operations report.

use vstd::prelude::*;
use vstd::string::StringExecFns;

verus! {

/// Why an operation was refused. A refused operation leaves every store as it was.
#[derive(Clone, Copy, Debug, PartialEq, Eq, Structural)]
pub enum ContractError {
    /// The source balance is smaller than the amount asked for.
    InsufficientFunds,
    /// A viewing key or permit was not accepted, or the caller lacks a capability.
    Unauthorized,
    /// The allowance has passed its expiration.
    Expired,
    /// An amount does not fit in 128 bits.
    Overflow,
    /// A logo above the size cap, or a page size above the limit.
    InvalidInput,
    /// The record asked for was never written.
    NotFound,
    /// The message has no counterpart in the base schema.
    Unconvertible,
}

impl ContractError {
    /// The text that goes with each kind.
    pub open spec fn spec_message(self) -> Seq<char> {
        match self {
            ContractError::InsufficientFunds => "insufficient funds"@,
            ContractError::Unauthorized => "unauthorized"@,
            ContractError::Expired => "allowance expired"@,
            ContractError::Overflow => "amount overflow"@,
            ContractError::InvalidInput => "invalid input"@,
            ContractError::NotFound => "not found"@,
            ContractError::Unconvertible => "Cannot convert into the target type"@,
        }
    }

    /// A short description of the error. An authorization failure always reads
    /// the same, whatever caused it.
    pub fn message(&self) -> (text: String)
        ensures
            text@ == self.spec_message(),
    {
        match self {
            ContractError::InsufficientFunds => String::from_str("insufficient funds"),
            ContractError::Unauthorized => String::from_str("unauthorized"),
            ContractError::Expired => String::from_str("allowance expired"),
            ContractError::Overflow => String::from_str("amount overflow"),
            ContractError::InvalidInput => String::from_str("invalid input"),
            ContractError::NotFound => String::from_str("not found"),
            ContractError::Unconvertible => String::from_str("Cannot convert into the target type"),
        }
    }
}

} // verus!
