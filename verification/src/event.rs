//! Notifications of the successful transitions.

use vstd::prelude::*;
use crate::state::constants::ELGAMAL_PUBKEY_MAX_BASE64_LEN;
use crate::address::Address;

verus! {

/// Event emitted when a game config is initialized
#[derive(Debug, Clone, Copy, PartialEq, Eq)]
pub struct GameConfigInitialized {
    pub game_config: Address,
    pub authority: Address,
    pub purchase_mint: Address,
    pub reward_mint: Address,
    pub game_vault: Address,
    pub pull_price: u64,
}

/// Event emitted when a pull is created
#[derive(Debug, Clone, Copy, PartialEq, Eq)]
pub struct PullCreated {
    pub id: u64,
    pub pull: Address,
    pub encrypted_amount: [u8; ELGAMAL_PUBKEY_MAX_BASE64_LEN],
}

/// Event emitted when pending balance of a pull applied
#[derive(Debug, Clone, Copy, PartialEq, Eq)]
pub struct PendingBalanceApplied {
    pub id: u64,
    pub pull: Address,
}

/// Event emitted when a pull is verified
#[derive(Debug, Clone, Copy, PartialEq, Eq)]
pub struct PullVerified {
    pub id: u64,
    pub pull: Address,
}

/// Event emitted when a pull is bought
#[derive(Debug, Clone, Copy, PartialEq, Eq)]
pub struct PullBought {
    pub id: u64,
    pub pull: Address,
    pub buyer: Address,
}

/// Event emitted when a pull is claimed
#[derive(Debug, Clone, Copy, PartialEq, Eq)]
pub struct PullClaimed {
    pub id: u64,
    pub pull: Address,
    pub buyer: Address,
}

} // verus!
