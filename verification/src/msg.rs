//! The typed command, query and answer surface of the bridge.
//!
//! The host's dispatcher decodes each incoming transaction into one of
//! these commands and hands it to the orchestrator in `contract`; the
//! structured answers are returned to the host for encoding.

use vstd::prelude::*;
use crate::state::Swap;

verus! {

/// The caller context the host supplies with every invocation: the
/// sending address and this bridge's own verification identifier.
#[derive(Debug)]
pub struct Env {
    pub message_sender: String,
    pub contract_code_hash: String,
}

/// Initialization parameters: the owner, and optionally a first token to
/// whitelist right away (address, verification identifier and minimum
/// transfer amount must then all be given).
#[derive(Debug)]
pub struct InitMsg {
    pub owner: String,
    pub token_address: Option<String>,
    pub code_hash: Option<String>,
    pub minimum_amount: Option<u128>,
}

/// The commands the bridge executes.
#[derive(Debug)]
pub enum HandleMsg {
    AddToken { address: String, code_hash: String, minimum_amount: u128 },
    RemoveToken { address: String },
    ChangeOwner { owner: String },
    PauseSwap {},
    UnpauseSwap {},
    /// A whitelisted token contract notifying of an incoming transfer to
    /// be bridged out; `msg` carries the destination address text.
    Receive { sender: String, msg: Option<String>, amount: u128 },
    /// A relayer asserting that a deposit happened on the external chain.
    MintFromExtChain {
        address: String,
        identifier: String,
        amount: u128,
        token: String,
        padding: Option<String>,
    },
}

/// The read-only queries.
#[derive(Debug)]
pub enum QueryMsg {
    Swap { nonce: u64, token: String },
    MintById { identifier: String },
    Tokens {},
}

/// Whether an operation succeeded.
#[derive(Clone, Copy, Debug, PartialEq, Eq, Structural)]
pub enum ResponseStatus {
    Success,
    Failure,
}

/// The structured result payload of each command.
#[derive(Clone, Copy, Debug, PartialEq, Eq, Structural)]
pub enum HandleAnswer {
    AddToken { status: ResponseStatus },
    RemoveToken { status: ResponseStatus },
    Receive { status: ResponseStatus, nonce: u64 },
    MintFromExtChain { status: ResponseStatus },
    ChangeOwner { status: ResponseStatus },
    UnpauseSwap { status: ResponseStatus },
    PauseSwap { status: ResponseStatus },
}

/// The structured result payload of each query.
#[derive(Debug)]
pub enum QueryAnswer {
    Swap { result: Swap },
    Mint { result: bool },
    Tokens { result: Vec<String> },
}

} // verus!
