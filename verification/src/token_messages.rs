//! The instructions the bridge emits for the token-contract collaborator
//! to execute: burning custodied supply, minting to a recipient, and the
//! one-time registration of the bridge as a receive-notification target.

use vstd::prelude::*;
use crate::state::ContractV;

verus! {

/// A supply operation on the local token, executed by the token contract.
#[derive(Debug)]
pub enum TokenMsgs {
    /// Burn `amount` from the bridge's custodied balance.
    Burn { amount: u128, padding: Option<String> },
    /// Mint `amount` to `address`.
    Mint { amount: u128, address: String, padding: Option<String> },
    /// Register the calling bridge (identified by `code_hash`) to be
    /// notified of incoming transfers.
    RegisterReceive { code_hash: String, padding: Option<String> },
}

/// An outbound instruction: a token message addressed to a token
/// contract, carrying that contract's verification identifier.
#[derive(Debug)]
pub struct Instruction {
    pub msg: TokenMsgs,
    pub contract_addr: String,
    pub callback_code_hash: String,
}

/// `m` is a burn of exactly `amount`.
pub open spec fn is_burn(m: TokenMsgs, amount: u128) -> bool {
    m matches TokenMsgs::Burn { amount: a, padding } && a == amount && padding is None
}

/// `m` is a mint of exactly `amount` to `recipient`.
pub open spec fn is_mint(m: TokenMsgs, amount: u128, recipient: Seq<char>) -> bool {
    m matches TokenMsgs::Mint { amount: a, address, padding } && a == amount && address@
        == recipient && padding is None
}

/// `m` registers the bridge with verification identifier `code_hash` for
/// receive notifications.
pub open spec fn is_register_receive(m: TokenMsgs, code_hash: Seq<char>) -> bool {
    m matches TokenMsgs::RegisterReceive { code_hash: h, padding } && h@ == code_hash && padding
        is None
}

/// `ins` is addressed to the token contract described by `entry`.
pub open spec fn addressed_to(ins: Instruction, entry: ContractV) -> bool {
    ins.contract_addr@ == entry.address && ins.callback_code_hash@ == entry.code_hash
}

} // verus!
