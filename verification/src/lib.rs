//! Core state-management and validation engine of a cross-chain asset bridge.
//!
//! Deposits of a whitelisted token are burned locally and logged as pending
//! outbound transfers in a per-asset, append-only swap ledger with contiguous
//! nonce assignment; deposit notifications from the external chain mint new
//! local tokens, guarded by an idempotency ledger so that no external deposit
//! is credited twice. Administrative operations (whitelist management, owner
//! change, pausing) are gated on the bridge owner.
//!
//! Everything here works on plain values; decoding of message envelopes and
//! delivery of the emitted token instructions belong to the surrounding host.

pub mod contract;
pub mod error;
pub mod eth;
pub mod msg;
pub mod state;
pub mod token_messages;

pub use error::ContractError;
