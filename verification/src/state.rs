//! Persisted records and the parameters of each request.

pub mod apply_pull_pending_balance_params;
pub mod buy_pull_params;
pub mod constants;
pub mod create_pull_params;
pub mod game_config;
pub mod initialize_game_config_params;
pub mod open_pull_params;
pub mod pull;
pub mod verify_pull_params;

pub use apply_pull_pending_balance_params::ApplyPullPendingBalanceParams;
pub use buy_pull_params::BuyPullParams;
pub use constants::{
    AE_CIPHERTEXT_MAX_BASE64_LEN, ELGAMAL_CIPHERTEXT_LEN, ELGAMAL_PUBKEY_MAX_BASE64_LEN,
};
pub use create_pull_params::CreatePullParams;
pub use game_config::GameConfig;
pub use initialize_game_config_params::InitializeGameConfigParams;
pub use open_pull_params::OpenPullParams;
pub use pull::Pull;
pub use verify_pull_params::VerifyPullParams;
