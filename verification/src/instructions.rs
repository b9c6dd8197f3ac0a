//! The requests of the protocol, one module each.

pub mod apply_pull_pending_balance;
pub mod buy_pull;
pub mod claim_pull;
pub mod create_pull;
pub mod initialize_game_config;
pub mod open_pull;
pub mod verify_pull;
