//! The accounts of each request, found from what the caller knows.

use vstd::prelude::*;
use vstd::bytes::spec_u64_to_le_bytes;
use anchor_lang::solana_program::system_program;
use anchor_spl::token;
use crate::address::Address;
use crate::instructions::apply_pull_pending_balance::ApplyPullPendingBalance;
use crate::instructions::buy_pull::BuyPull;
use crate::instructions::create_pull::CreatePull;
use crate::instructions::initialize_game_config::InitializeGameConfig;
use crate::instructions::open_pull::OpenPull;
use crate::instructions::verify_pull::VerifyPull;
use crate::pda::{
    game_address, get_game_config_pubkey, get_pull_pubkey, get_reward_vault_pubkey,
    GAME_CONFIG_SEED, PULL_SEED, REWARD_VAULT_SEED,
};
use crate::utils::rent::{Rent, RENT_SYSVAR_ID};
use crate::utils::token_2022::{Token2022, TOKEN_2022_PROGRAM_ID};
use crate::utils::zk_elgamal_proof_program::{ZkElgamalProof, ZK_ELGAMAL_PROOF_PROGRAM_ID};

verus! {

/// The bytes of the system program's identity: all zero.
pub const SYSTEM_PROGRAM_ID: [u8; 32] = [
    0, 0, 0, 0, 0, 0, 0, 0, 0, 0, 0, 0, 0, 0, 0, 0, 0, 0, 0, 0, 0, 0, 0, 0, 0, 0, 0, 0, 0, 0, 0, 0,
];

/// The bytes of the token program's identity,
/// `TokenkegQfeZyiNwAJbNbGKPFXCWuBvf9Ss623VQ5DA` in base58.
pub const TOKEN_PROGRAM_ID: [u8; 32] = [
    6, 221, 246, 225, 215, 101, 161, 147, 217, 203, 225, 70, 206, 235, 121, 172, 28, 180, 133, 237,
    95, 91, 55, 145, 58, 140, 245, 133, 126, 255, 0, 169,
];

/// `solana_program::system_program::ID`: the identity of the system program.
#[verifier::external_body]
fn system_program_id() -> (id: Address)
    ensures
        id@ == SYSTEM_PROGRAM_ID@,
{
    Address { bytes: system_program::ID.to_bytes() }
}

/// `anchor_spl::token::ID`: the identity of the token program.
#[verifier::external_body]
fn token_program_id() -> (id: Address)
    ensures
        id@ == TOKEN_PROGRAM_ID@,
{
    Address { bytes: token::ID.to_bytes() }
}

/// The address of the game's configuration.
pub open spec fn game_config_address() -> Option<Seq<u8>> {
    game_address(seq![GAME_CONFIG_SEED@])
}

/// The address of the pull with the given id.
pub open spec fn pull_address(pull_id: u64) -> Option<Seq<u8>> {
    game_address(seq![PULL_SEED@, spec_u64_to_le_bytes(pull_id)])
}

/// The address of the escrow of the pull at `pull`.
pub open spec fn reward_vault_address(pull: Seq<u8>) -> Option<Seq<u8>> {
    game_address(seq![REWARD_VAULT_SEED@, pull])
}

/// Whether the configuration, the pull and the pull's escrow all have an
/// address.
pub open spec fn pull_addresses_exist(pull_id: u64) -> bool {
    &&& game_config_address() is Some
    &&& pull_address(pull_id) is Some
    &&& reward_vault_address(pull_address(pull_id)->0) is Some
}

impl InitializeGameConfig {
    /// The accounts of an initialisation: the configuration lies at its
    /// derived address. None where no address can be derived.
    pub fn populate(
        authority: Address,
        purchase_mint: Address,
        reward_mint: Address,
        game_vault: Address,
        payer: Address,
    ) -> (res: Option<Self>)
        ensures
            res is Some <==> game_config_address() is Some,
            res matches Some(accounts) ==> {
                &&& Some(accounts.game_config@) == game_config_address()
                &&& accounts.authority == authority
                &&& accounts.purchase_mint == purchase_mint
                &&& accounts.reward_mint == reward_mint
                &&& accounts.game_vault == game_vault
                &&& accounts.payer == payer
                &&& accounts.system_program@ == SYSTEM_PROGRAM_ID@
            },
    {
        let game_config = match get_game_config_pubkey() {
            Some(address) => address,
            None => return None,
        };
        Some(
            InitializeGameConfig {
                game_config,
                authority,
                purchase_mint,
                reward_mint,
                game_vault,
                payer,
                system_program: system_program_id(),
            },
        )
    }
}

impl CreatePull {
    /// The accounts of a creation: the configuration, the pull and its
    /// escrow lie at their derived addresses. None where one of them cannot
    /// be derived.
    pub fn populate(
        authority: Address,
        reward_mint: Address,
        payer: Address,
        pubkey_validity_proof_data: Address,
        pull_id: u64,
    ) -> (res: Option<Self>)
        ensures
            res is Some <==> pull_addresses_exist(pull_id),
            res matches Some(accounts) ==> {
                &&& Some(accounts.game_config@) == game_config_address()
                &&& Some(accounts.pull@) == pull_address(pull_id)
                &&& Some(accounts.reward_vault@) == reward_vault_address(accounts.pull@)
                &&& accounts.reward_mint == reward_mint
                &&& accounts.pubkey_validity_proof_data == pubkey_validity_proof_data
                &&& accounts.authority == authority
                &&& accounts.payer == payer
                &&& accounts.system_program@ == SYSTEM_PROGRAM_ID@
                &&& accounts.token_program@ == TOKEN_2022_PROGRAM_ID@
                &&& accounts.rent@ == RENT_SYSVAR_ID@
            },
    {
        let game_config = match get_game_config_pubkey() {
            Some(address) => address,
            None => return None,
        };
        let pull = match get_pull_pubkey(pull_id) {
            Some(address) => address,
            None => return None,
        };
        let reward_vault = match get_reward_vault_pubkey(pull) {
            Some(address) => address,
            None => return None,
        };
        Some(
            CreatePull {
                pull,
                game_config,
                reward_vault,
                reward_mint,
                pubkey_validity_proof_data,
                authority,
                payer,
                system_program: system_program_id(),
                token_program: Token2022::id(),
                rent: Rent::id(),
            },
        )
    }
}

impl ApplyPullPendingBalance {
    /// The accounts of a request to apply the pending balance. None where
    /// an address cannot be derived.
    pub fn populate(authority: Address, pull_id: u64) -> (res: Option<Self>)
        ensures
            res is Some <==> pull_addresses_exist(pull_id),
            res matches Some(accounts) ==> {
                &&& Some(accounts.game_config@) == game_config_address()
                &&& Some(accounts.pull@) == pull_address(pull_id)
                &&& Some(accounts.reward_vault@) == reward_vault_address(accounts.pull@)
                &&& accounts.authority == authority
                &&& accounts.token_program@ == TOKEN_2022_PROGRAM_ID@
            },
    {
        let game_config = match get_game_config_pubkey() {
            Some(address) => address,
            None => return None,
        };
        let pull = match get_pull_pubkey(pull_id) {
            Some(address) => address,
            None => return None,
        };
        let reward_vault = match get_reward_vault_pubkey(pull) {
            Some(address) => address,
            None => return None,
        };
        Some(
            ApplyPullPendingBalance {
                game_config,
                pull,
                reward_vault,
                authority,
                token_program: Token2022::id(),
            },
        )
    }
}

impl VerifyPull {
    /// The accounts of a verification. None where an address cannot be
    /// derived.
    pub fn populate(
        authority: Address,
        zero_ciphertext_proof_context: Address,
        equality_proof_account: Address,
        ciphertext_validity_proof_account: Address,
        range_proof_account: Address,
        pull_id: u64,
    ) -> (res: Option<Self>)
        ensures
            res is Some <==> pull_addresses_exist(pull_id),
            res matches Some(accounts) ==> {
                &&& Some(accounts.game_config@) == game_config_address()
                &&& Some(accounts.pull@) == pull_address(pull_id)
                &&& Some(accounts.reward_vault@) == reward_vault_address(accounts.pull@)
                &&& accounts.authority == authority
                &&& accounts.zero_ciphertext_proof_context == zero_ciphertext_proof_context
                &&& accounts.equality_proof_account == equality_proof_account
                &&& accounts.ciphertext_validity_proof_account == ciphertext_validity_proof_account
                &&& accounts.range_proof_account == range_proof_account
                &&& accounts.zk_elgamal_proof_program@ == ZK_ELGAMAL_PROOF_PROGRAM_ID@
                &&& accounts.token_program@ == TOKEN_2022_PROGRAM_ID@
            },
    {
        let game_config = match get_game_config_pubkey() {
            Some(address) => address,
            None => return None,
        };
        let pull = match get_pull_pubkey(pull_id) {
            Some(address) => address,
            None => return None,
        };
        let reward_vault = match get_reward_vault_pubkey(pull) {
            Some(address) => address,
            None => return None,
        };
        Some(
            VerifyPull {
                game_config,
                pull,
                reward_vault,
                authority,
                zero_ciphertext_proof_context,
                equality_proof_account,
                ciphertext_validity_proof_account,
                range_proof_account,
                zk_elgamal_proof_program: ZkElgamalProof::id(),
                token_program: Token2022::id(),
            },
        )
    }
}

impl BuyPull {
    /// The accounts of a purchase. None where an address cannot be derived.
    pub fn populate(
        buyer: Address,
        buyer_purchase_account: Address,
        game_vault: Address,
        purchase_mint: Address,
        pull_id: u64,
    ) -> (res: Option<Self>)
        ensures
            res is Some <==> game_config_address() is Some && pull_address(pull_id) is Some,
            res matches Some(accounts) ==> {
                &&& Some(accounts.game_config@) == game_config_address()
                &&& Some(accounts.pull@) == pull_address(pull_id)
                &&& accounts.buyer == buyer
                &&& accounts.buyer_purchase_account == buyer_purchase_account
                &&& accounts.game_vault == game_vault
                &&& accounts.purchase_mint == purchase_mint
                &&& accounts.token_program@ == TOKEN_PROGRAM_ID@
            },
    {
        let game_config = match get_game_config_pubkey() {
            Some(address) => address,
            None => return None,
        };
        let pull = match get_pull_pubkey(pull_id) {
            Some(address) => address,
            None => return None,
        };
        Some(
            BuyPull {
                game_config,
                pull,
                buyer,
                buyer_purchase_account,
                game_vault,
                purchase_mint,
                token_program: token_program_id(),
            },
        )
    }
}

impl OpenPull {
    /// The accounts of a reveal by withdrawal. None where an address cannot
    /// be derived.
    pub fn populate(
        buyer: Address,
        buyer_reward_account: Address,
        reward_mint: Address,
        equality_proof_account: Address,
        range_proof_account: Address,
        authority: Address,
        pull_id: u64,
    ) -> (res: Option<Self>)
        ensures
            res is Some <==> pull_addresses_exist(pull_id),
            res matches Some(accounts) ==> {
                &&& Some(accounts.game_config@) == game_config_address()
                &&& Some(accounts.pull@) == pull_address(pull_id)
                &&& Some(accounts.reward_vault@) == reward_vault_address(accounts.pull@)
                &&& accounts.buyer == buyer
                &&& accounts.buyer_reward_account == buyer_reward_account
                &&& accounts.reward_mint == reward_mint
                &&& accounts.equality_proof_account == equality_proof_account
                &&& accounts.range_proof_account == range_proof_account
                &&& accounts.authority == authority
                &&& accounts.zk_elgamal_proof_program@ == ZK_ELGAMAL_PROOF_PROGRAM_ID@
                &&& accounts.token_program@ == TOKEN_PROGRAM_ID@
                &&& accounts.token_2022_program@ == TOKEN_2022_PROGRAM_ID@
            },
    {
        let game_config = match get_game_config_pubkey() {
            Some(address) => address,
            None => return None,
        };
        let pull = match get_pull_pubkey(pull_id) {
            Some(address) => address,
            None => return None,
        };
        let reward_vault = match get_reward_vault_pubkey(pull) {
            Some(address) => address,
            None => return None,
        };
        Some(
            OpenPull {
                pull,
                game_config,
                buyer,
                reward_vault,
                buyer_reward_account,
                reward_mint,
                equality_proof_account,
                range_proof_account,
                authority,
                zk_elgamal_proof_program: ZkElgamalProof::id(),
                token_program: token_program_id(),
                token_2022_program: Token2022::id(),
            },
        )
    }
}

} // verus!
