//! Blind loot box ("gacha pull") protocol: an operator commits a hidden reward
//! to a slot, a buyer pays a fixed price, and the reward is revealed and
//! delivered later. This crate holds the lifecycle rules of a pull and the
//! reconciliation of its confidential escrow against the commitment.
//!
//! The crate decides; it does not act. Each request is a function from the
//! records and the request's inputs to the records' next state and a plan of
//! the calls to make into the ledger. Whoever runs the requests performs the
//! plan and stores the state.

pub mod address;
pub mod bytes;
pub mod error;
pub mod event;
pub mod instructions;
pub mod invocation;
pub mod ledger;
pub mod lifecycle;
pub mod pda;
pub mod sdk;
pub mod state;
pub mod utils;
