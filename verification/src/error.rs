//! The bridge's error taxonomy.
//!
//! Every failure of an operation is reported through one of these kinds.
//! Callers branch on the kind; the text returned by [`ContractError::message`]
//! is for human consumption only.

use vstd::prelude::*;

verus! {

/// The stable error kinds of the bridge.
#[derive(Clone, Copy, Debug, PartialEq, Eq, Structural)]
pub enum ContractError {
    /// The caller is not the bridge owner.
    Unauthorized,
    /// Both transactional flows are halted by the pause flag.
    Paused,
    /// The calling or targeted token contract is not whitelisted.
    UnknownToken,
    /// A lookup (whitelist entry or swap record) found nothing.
    NotFound,
    /// The destination does not match the external chain's address grammar.
    InvalidAddress,
    /// The amount is below the asset's minimum transfer amount.
    BelowMinimum,
    /// The external deposit identifier was already credited.
    AlreadyProcessed,
}

impl ContractError {
    /// A human-readable description of the error kind.
    pub fn message(&self) -> (r: &'static str)
        ensures
            *self matches ContractError::Paused ==> r@ == "Swap contract is currently paused"@,
            *self matches ContractError::UnknownToken ==> r@ == "Unknown token"@,
            *self matches ContractError::NotFound ==> r@ == "Token address not in whitelist"@,
            *self matches ContractError::AlreadyProcessed ==> r@ == "Mint already exists"@,
    {
        match self {
            ContractError::Unauthorized => "Cannot perform this action from non owner address",
            ContractError::Paused => "Swap contract is currently paused",
            ContractError::UnknownToken => "Unknown token",
            ContractError::NotFound => "Token address not in whitelist",
            ContractError::InvalidAddress => "Failed to parse Ethereum address",
            ContractError::BelowMinimum => "Cannot swap amount under the asset minimum",
            ContractError::AlreadyProcessed => "Mint already exists",
        }
    }
}

} // verus!
