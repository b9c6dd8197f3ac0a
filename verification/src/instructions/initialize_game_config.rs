//! Initialisation of the one global configuration.

use vstd::prelude::*;
use crate::address::Address;
use crate::error::{Failure, FailureKind, GachaError};
use crate::event::GameConfigInitialized;
use crate::ledger::account::{mint_confidential_support, read_mint_confidential_support};
use crate::state::{GameConfig, InitializeGameConfigParams};

verus! {

/// The accounts of an initialisation.
#[derive(Debug, Clone, Copy, PartialEq, Eq)]
pub struct InitializeGameConfig {
    pub game_config: Address,
    pub authority: Address,
    pub purchase_mint: Address,
    pub reward_mint: Address,
    pub game_vault: Address,
    pub payer: Address,
    pub system_program: Address,
}

/// What the ledger says of a reward asset: its record must unpack as a mint,
/// and the mint must support confidential balances.
pub open spec fn reward_mint_ruling(mint_data: Seq<u8>) -> Result<(), FailureKind> {
    match mint_confidential_support(mint_data) {
        None => Err(FailureKind::Program),
        Some(false) => Err(FailureKind::Gacha(GachaError::InvalidRewardMint)),
        Some(true) => Ok(()),
    }
}

/// Checks that the reward asset supports confidential balances.
pub fn verify_reward_mint(mint_data: &[u8]) -> (res: Result<(), Failure>)
    ensures
        match reward_mint_ruling(mint_data@) {
            Ok(()) => res is Ok,
            Err(kind) => res matches Err(failure) && failure@ == kind,
        },
{
    match read_mint_confidential_support(mint_data) {
        Ok(true) => Ok(()),
        Ok(false) => Err(Failure::Gacha(GachaError::InvalidRewardMint)),
        Err(error) => Err(Failure::Program(error)),
    }
}

/// The configuration that an initialisation persists.
pub open spec fn initial_game_config(accounts: InitializeGameConfig, pull_price: u64) -> GameConfig {
    GameConfig {
        authority: accounts.authority,
        purchase_mint: accounts.purchase_mint,
        reward_mint: accounts.reward_mint,
        game_vault: accounts.game_vault,
        pull_price,
        last_pull_id: 0,
    }
}

/// What comes of an initialisation. The price is checked first, the reward
/// asset second.
pub open spec fn initialization_ruling(pull_price: u64, mint_data: Seq<u8>) -> Result<
    (),
    FailureKind,
> {
    if pull_price == 0 {
        Err(FailureKind::Gacha(GachaError::InvalidZeroPullPrice))
    } else {
        reward_mint_ruling(mint_data)
    }
}

/// Initialises the game: the price must be positive and the reward asset
/// must support confidential balances. The configuration starts with its
/// counter at 0.
pub fn initialize_game_config(
    accounts: &InitializeGameConfig,
    params: &InitializeGameConfigParams,
    reward_mint_data: &[u8],
) -> (res: Result<(GameConfig, GameConfigInitialized), Failure>)
    ensures
        match initialization_ruling(params.pull_price, reward_mint_data@) {
            Ok(()) => {
                &&& res matches Ok(created)
                &&& created.0 == initial_game_config(*accounts, params.pull_price)
                &&& created.0.wf()
                &&& created.1 == (GameConfigInitialized {
                    game_config: accounts.game_config,
                    authority: accounts.authority,
                    purchase_mint: accounts.purchase_mint,
                    reward_mint: accounts.reward_mint,
                    game_vault: accounts.game_vault,
                    pull_price: params.pull_price,
                })
            },
            Err(kind) => res matches Err(failure) && failure@ == kind,
        },
{
    if params.pull_price == 0 {
        return Err(Failure::Gacha(GachaError::InvalidZeroPullPrice));
    }
    let game_config = GameConfig {
        authority: accounts.authority,
        purchase_mint: accounts.purchase_mint,
        reward_mint: accounts.reward_mint,
        game_vault: accounts.game_vault,
        pull_price: params.pull_price,
        last_pull_id: 0,
    };
    match verify_reward_mint(reward_mint_data) {
        Ok(()) => {},
        Err(failure) => return Err(failure),
    }
    let event = GameConfigInitialized {
        game_config: accounts.game_config,
        authority: game_config.authority,
        purchase_mint: game_config.purchase_mint,
        reward_mint: game_config.reward_mint,
        game_vault: game_config.game_vault,
        pull_price: game_config.pull_price,
    };
    Ok((game_config, event))
}

} // verus!
