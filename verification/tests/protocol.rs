use anchor_lang::prelude::Pubkey;
use anchor_lang::solana_program::program_error::ProgramError;
use anchor_lang::solana_program::program_option::COption;
use gacha_sol::address::Address;
use gacha_sol::error::{Failure, GachaError};
use gacha_sol::event::{
    GameConfigInitialized, PendingBalanceApplied, PullBought, PullClaimed, PullCreated, PullVerified,
};
use gacha_sol::instructions::apply_pull_pending_balance::{
    apply_pull_pending_balance, ApplyPullPendingBalance,
};
use gacha_sol::instructions::buy_pull::{buy_pull, BuyPull, PurchaseTransfer};
use gacha_sol::instructions::claim_pull::{claim_pull, ClaimPull};
use gacha_sol::instructions::create_pull::{
    close_context_states, configure_token_account, create_pull,
    initialize_token_account_with_extension, reward_vault_space, CreatePull,
    MAXIMUM_PENDING_BALANCE_CREDIT_COUNTER,
};
use gacha_sol::instructions::initialize_game_config::{
    initialize_game_config, verify_reward_mint, InitializeGameConfig,
};
use gacha_sol::instructions::open_pull::{open_pull, withdraw_reward, OpenPull, RewardTransfer};
use gacha_sol::instructions::verify_pull::{
    check_certificate, verify_pull, verify_reward_balance, VerifyPull,
};
use gacha_sol::invocation::{AccountRole, SigningAuthority};
use gacha_sol::ledger::certificate::ZeroCiphertextCertificate;
use gacha_sol::ledger::ciphertext::{
    decode_decryptable_balance, decode_encrypted_balance, remainder,
};
use gacha_sol::state::{
    ApplyPullPendingBalanceParams, CreatePullParams, GameConfig, InitializeGameConfigParams,
    OpenPullParams, Pull, VerifyPullParams,
};
use spl_token_2022::extension::confidential_transfer::instruction::{
    apply_pending_balance, configure_account, transfer, withdraw, ProofContextState, ProofType,
    ZeroCiphertextProofContext, ZeroCiphertextProofData, ZkProofData,
};
use spl_token_2022::extension::confidential_transfer::{
    ConfidentialTransferAccount, ConfidentialTransferMint,
};
use spl_token_2022::extension::{
    BaseStateWithExtensionsMut, ExtensionType, StateWithExtensionsMut,
};
use spl_token_2022::solana_zk_sdk::encryption::auth_encryption::AeKey;
use spl_token_2022::solana_zk_sdk::encryption::elgamal::{ElGamalCiphertext, ElGamalKeypair};
use spl_token_2022::solana_zk_sdk::encryption::pod::auth_encryption::PodAeCiphertext;
use spl_token_2022::solana_zk_sdk::encryption::pod::elgamal::{
    PodElGamalCiphertext, PodElGamalPubkey,
};
use spl_token_2022::solana_zk_sdk::zk_elgamal_proof_program::instruction::{
    close_context_state, ContextStateInfo,
};
use spl_token_2022::state::{Account, AccountState, Mint};
use spl_token_confidential_transfer_ciphertext_arithmetic::subtract;
use spl_token_confidential_transfer_proof_extraction::instruction::ProofLocation;

const PULL_PRICE: u64 = 100_000_000;
const REWARD: u64 = 200_000_000;

fn address(tag: u8) -> Address {
    Address { bytes: [tag; 32] }
}

fn key(address: &Address) -> Pubkey {
    Pubkey::new_from_array(address.bytes)
}

fn ciphertext_text(ciphertext: &PodElGamalCiphertext) -> [u8; 88] {
    ciphertext.to_string().as_bytes().try_into().unwrap()
}

fn balance_text(balance: &PodAeCiphertext) -> [u8; 48] {
    balance.to_string().as_bytes().try_into().unwrap()
}

fn ciphertext_bytes(ciphertext: &PodElGamalCiphertext) -> [u8; 64] {
    bytemuck::cast(*ciphertext)
}

fn vault_data(keypair: &ElGamalKeypair, available: &PodElGamalCiphertext, credits: u64) -> Vec<u8> {
    let space = ExtensionType::try_calculate_account_len::<Account>(&[
        ExtensionType::ConfidentialTransferAccount,
    ])
    .unwrap();
    let mut data = vec![0u8; space];
    let mut state = StateWithExtensionsMut::<Account>::unpack_uninitialized(&mut data).unwrap();
    let extension = state.init_extension::<ConfidentialTransferAccount>(true).unwrap();
    extension.approved = true.into();
    extension.elgamal_pubkey = PodElGamalPubkey::from(*keypair.pubkey());
    extension.available_balance = *available;
    extension.pending_balance_credit_counter = credits.into();
    state.base = Account {
        mint: key(&address(3)),
        owner: key(&address(10)),
        amount: 0,
        delegate: COption::None,
        state: AccountState::Initialized,
        is_native: COption::None,
        delegated_amount: 0,
        close_authority: COption::None,
    };
    state.pack_base();
    state.init_account_type().unwrap();
    data
}

fn mint_data(confidential: bool) -> Vec<u8> {
    let extensions = if confidential {
        vec![ExtensionType::ConfidentialTransferMint]
    } else {
        vec![ExtensionType::MintCloseAuthority]
    };
    let space = ExtensionType::try_calculate_account_len::<Mint>(&extensions).unwrap();
    let mut data = vec![0u8; space];
    let mut state = StateWithExtensionsMut::<Mint>::unpack_uninitialized(&mut data).unwrap();
    if confidential {
        state.init_extension::<ConfidentialTransferMint>(true).unwrap();
    } else {
        state
            .init_extension::<spl_token_2022::extension::mint_close_authority::MintCloseAuthority>(
                true,
            )
            .unwrap();
    }
    state.base = Mint {
        mint_authority: COption::None,
        supply: 0,
        decimals: 9,
        is_initialized: true,
        freeze_authority: COption::None,
    };
    state.pack_base();
    state.init_account_type().unwrap();
    data
}

fn certificate_data(
    authority: &Address,
    proof_type: ProofType,
    pubkey: PodElGamalPubkey,
    ciphertext: PodElGamalCiphertext,
) -> Vec<u8> {
    ProofContextState::<ZeroCiphertextProofContext>::encode(
        &key(authority),
        proof_type,
        &ZeroCiphertextProofContext { pubkey, ciphertext },
    )
}

/// The certificate that the proof verifier leaves for a remainder that does
/// encrypt zero.
fn proven_certificate(
    authority: &Address,
    keypair: &ElGamalKeypair,
    zero: &PodElGamalCiphertext,
) -> Vec<u8> {
    let ciphertext: ElGamalCiphertext = (*zero).try_into().unwrap();
    let proof = ZeroCiphertextProofData::new(keypair, &ciphertext).unwrap();
    proof.verify_proof().unwrap();
    let context = proof.context_data();
    certificate_data(authority, ProofType::ZeroCiphertext, context.pubkey, context.ciphertext)
}

fn initialize_accounts() -> InitializeGameConfig {
    InitializeGameConfig {
        game_config: address(1),
        authority: address(2),
        purchase_mint: address(4),
        reward_mint: address(3),
        game_vault: address(5),
        payer: address(6),
        system_program: address(0),
    }
}

fn create_accounts() -> CreatePull {
    CreatePull {
        pull: address(10),
        game_config: address(1),
        reward_vault: address(11),
        reward_mint: address(3),
        pubkey_validity_proof_data: address(12),
        authority: address(2),
        payer: address(6),
        system_program: address(0),
        token_program: gacha_sol::utils::token_2022::Token2022::id(),
        rent: gacha_sol::utils::rent::Rent::id(),
    }
}

fn verify_accounts() -> VerifyPull {
    VerifyPull {
        game_config: address(1),
        pull: address(10),
        reward_vault: address(11),
        authority: address(2),
        zero_ciphertext_proof_context: address(13),
        equality_proof_account: address(14),
        ciphertext_validity_proof_account: address(15),
        range_proof_account: address(16),
        zk_elgamal_proof_program: gacha_sol::utils::zk_elgamal_proof_program::ZkElgamalProof::id(),
        token_program: gacha_sol::utils::token_2022::Token2022::id(),
    }
}

fn buy_accounts(buyer: Address) -> BuyPull {
    BuyPull {
        game_config: address(1),
        pull: address(10),
        buyer,
        buyer_purchase_account: address(21),
        game_vault: address(5),
        purchase_mint: address(4),
        token_program: address(30),
    }
}

fn open_accounts(buyer: Address) -> OpenPull {
    OpenPull {
        pull: address(10),
        game_config: address(1),
        buyer,
        reward_vault: address(11),
        buyer_reward_account: address(22),
        reward_mint: address(3),
        equality_proof_account: address(17),
        range_proof_account: address(18),
        authority: address(2),
        zk_elgamal_proof_program: gacha_sol::utils::zk_elgamal_proof_program::ZkElgamalProof::id(),
        token_program: address(30),
        token_2022_program: gacha_sol::utils::token_2022::Token2022::id(),
    }
}

fn claim_accounts(buyer: Address) -> ClaimPull {
    ClaimPull {
        pull: address(10),
        game_config: address(1),
        buyer,
        reward_vault: address(11),
        buyer_reward_account: address(22),
        reward_mint: address(3),
        equality_proof_account: address(14),
        ciphertext_validity_proof_account: address(15),
        range_proof_account: address(16),
        zk_elgamal_proof_program: gacha_sol::utils::zk_elgamal_proof_program::ZkElgamalProof::id(),
        token_program: gacha_sol::utils::token_2022::Token2022::id(),
    }
}

struct Game {
    keypair: ElGamalKeypair,
    ae_key: AeKey,
    game_config: GameConfig,
    pull: Pull,
    committed: PodElGamalCiphertext,
}

/// A game with its first pull created, committed to the reward.
fn game_with_pull() -> Game {
    let keypair = ElGamalKeypair::new_rand();
    let ae_key = AeKey::new_rand();
    let (mut game_config, _) = initialize_game_config(
        &initialize_accounts(),
        &InitializeGameConfigParams { pull_price: PULL_PRICE },
        &mint_data(true),
    )
    .unwrap();
    let committed = PodElGamalCiphertext::from(keypair.pubkey().encrypt(REWARD));
    let params = CreatePullParams {
        pull_id: 1,
        encrypted_amount: ciphertext_text(&committed),
        decryptable_zero_balance_base64: balance_text(&PodAeCiphertext::from(ae_key.encrypt(0))),
    };
    let (pull, _) = create_pull(&create_accounts(), &mut game_config, &params, 254, 4_000_000).unwrap();
    Game { keypair, ae_key, game_config, pull, committed }
}

fn verify_params(game: &Game) -> VerifyPullParams {
    let lo = PodElGamalCiphertext::from(game.keypair.pubkey().encrypt(REWARD & 0xffff));
    let hi = PodElGamalCiphertext::from(game.keypair.pubkey().encrypt(REWARD >> 16));
    VerifyPullParams {
        transfer_amount_auditor_ciphertext_lo: ciphertext_text(&lo),
        transfer_amount_auditor_ciphertext_hi: ciphertext_text(&hi),
        final_decryptable_available_balance: balance_text(&PodAeCiphertext::from(
            game.ae_key.encrypt(0),
        )),
    }
}

/// Funds the escrow with `funded` and verifies the pull with the
/// certificate for the escrow's remainder.
fn fund_and_verify(game: &mut Game, funded: u64) -> Result<PullVerified, Failure> {
    let available = PodElGamalCiphertext::from(game.keypair.pubkey().encrypt(funded));
    let vault = vault_data(&game.keypair, &available, 1);
    let rest = subtract(&available, &game.committed).unwrap();
    let certificate = proven_certificate(&game.game_config.authority, &game.keypair, &rest);
    let params = verify_params(game);
    verify_pull(&verify_accounts(), &game.game_config, &mut game.pull, &params, &vault, &certificate)
}

fn gacha(failure: Result<impl std::fmt::Debug, Failure>) -> GachaError {
    match failure {
        Err(Failure::Gacha(error)) => error,
        other => panic!("expected a failure of the protocol, got {:?}", other),
    }
}

#[test]
fn test_initialize_game_config() {
    let pull_price = 1001234;
    let accounts = initialize_accounts();
    let (game_config, event) = initialize_game_config(
        &accounts,
        &InitializeGameConfigParams { pull_price },
        &mint_data(true),
    )
    .unwrap();
    assert_eq!(game_config.authority, accounts.authority);
    assert_eq!(game_config.purchase_mint, accounts.purchase_mint);
    assert_eq!(game_config.reward_mint, accounts.reward_mint);
    assert_eq!(game_config.game_vault, accounts.game_vault);
    assert_eq!(game_config.pull_price, pull_price);
    assert_eq!(game_config.last_pull_id, 0);
    assert_eq!(
        event,
        GameConfigInitialized {
            game_config: accounts.game_config,
            authority: accounts.authority,
            purchase_mint: accounts.purchase_mint,
            reward_mint: accounts.reward_mint,
            game_vault: accounts.game_vault,
            pull_price,
        }
    );
}

#[test]
fn initialize_rejects_a_zero_price() {
    let res = initialize_game_config(
        &initialize_accounts(),
        &InitializeGameConfigParams { pull_price: 0 },
        &mint_data(true),
    );
    assert_eq!(gacha(res), GachaError::InvalidZeroPullPrice);
}

#[test]
fn initialize_checks_the_price_before_the_mint() {
    let res = initialize_game_config(
        &initialize_accounts(),
        &InitializeGameConfigParams { pull_price: 0 },
        &mint_data(false),
    );
    assert_eq!(gacha(res), GachaError::InvalidZeroPullPrice);
}

#[test]
fn initialize_rejects_a_mint_without_confidential_transfers() {
    let res = initialize_game_config(
        &initialize_accounts(),
        &InitializeGameConfigParams { pull_price: PULL_PRICE },
        &mint_data(false),
    );
    assert_eq!(gacha(res), GachaError::InvalidRewardMint);
    assert_eq!(gacha(verify_reward_mint(&mint_data(false))), GachaError::InvalidRewardMint);
    assert!(verify_reward_mint(&mint_data(true)).is_ok());
}

#[test]
fn initialize_hands_on_the_error_of_a_record_that_is_no_mint() {
    let res = verify_reward_mint(&[0u8; 10]);
    assert!(matches!(res, Err(Failure::Program(ProgramError::InvalidAccountData))));
}

#[test]
fn test_create_pull() {
    let keypair = ElGamalKeypair::new_rand();
    let ae_key = AeKey::new_rand();
    let (mut game_config, _) = initialize_game_config(
        &initialize_accounts(),
        &InitializeGameConfigParams { pull_price: 100_000_000 },
        &mint_data(true),
    )
    .unwrap();
    let pull_id = game_config.last_pull_id + 1;
    let expected_amount = 200_000_000u64;
    let decryptable_zero_balance = PodAeCiphertext::from(ae_key.encrypt(0));
    let encrypted_amount = PodElGamalCiphertext::from(keypair.pubkey().encrypt(expected_amount));
    let decryptable_zero_balance_array = balance_text(&decryptable_zero_balance);
    let encrypted_amount_array = ciphertext_text(&encrypted_amount);
    let accounts = create_accounts();
    let params = CreatePullParams {
        pull_id,
        encrypted_amount: encrypted_amount_array,
        decryptable_zero_balance_base64: decryptable_zero_balance_array,
    };
    let lamports = 4_127_520;
    let (pull, plan) = create_pull(&accounts, &mut game_config, &params, 253, lamports).unwrap();

    assert_eq!(pull.id, pull_id);
    assert_eq!(pull.reward_vault, accounts.reward_vault);
    assert_eq!(pull.encrypted_amount, encrypted_amount_array);
    assert_eq!(pull.buyer, None);
    assert_eq!(pull.verified, false);
    assert_eq!(pull.claimed, false);
    assert_eq!(pull.revealed_amount, 0);
    assert_eq!(pull.transfer_amount_auditor_ciphertext_lo, [0u8; 88]);
    assert_eq!(pull.transfer_amount_auditor_ciphertext_hi, [0u8; 88]);
    assert_eq!(pull.final_decryptable_available_balance, [0u8; 48]);
    assert_eq!(pull.equality_proof_account, Address { bytes: [0u8; 32] });
    assert_eq!(pull.ciphertext_validity_proof_account, Address { bytes: [0u8; 32] });
    assert_eq!(pull.range_proof_account, Address { bytes: [0u8; 32] });
    assert!(pull.bump > 0);
    assert_eq!(pull.bump, 253);
    assert_eq!(pull.pull_id_bytes, pull_id.to_le_bytes());
    assert_eq!(game_config.last_pull_id, 1);
    assert_eq!(
        plan.event,
        PullCreated { id: 1, pull: accounts.pull, encrypted_amount: encrypted_amount_array }
    );

    // The escrow is allocated, initialised, configured; the certificate is closed.
    assert_eq!(plan.allocate.len(), 2);
    let space = ExtensionType::try_calculate_account_len::<Account>(&[
        ExtensionType::ConfidentialTransferAccount,
    ])
    .unwrap();
    assert_eq!(
        plan.allocate[0].instruction,
        anchor_lang::solana_program::system_instruction::create_account(
            &key(&accounts.payer),
            &key(&accounts.reward_vault),
            lamports,
            space as u64,
            &spl_token_2022::ID,
        )
    );
    assert_eq!(
        plan.allocate[0].accounts,
        vec![AccountRole::Payer, AccountRole::RewardVault, AccountRole::SystemProgram]
    );
    assert_eq!(plan.allocate[0].authority, SigningAuthority::RewardVault);
    assert_eq!(plan.allocate[0].on_failure, None);
    assert_eq!(
        plan.allocate[1].instruction,
        spl_token_2022::instruction::initialize_account3(
            &spl_token_2022::ID,
            &key(&accounts.reward_vault),
            &key(&accounts.reward_mint),
            &key(&accounts.pull),
        )
        .unwrap()
    );
    assert_eq!(
        plan.allocate[1].accounts,
        vec![AccountRole::RewardVault, AccountRole::RewardMint, AccountRole::Pull, AccountRole::Rent]
    );
    assert_eq!(plan.allocate[1].authority, SigningAuthority::Request);
    let expected_configure = configure_account(
        &spl_token_2022::ID,
        &key(&accounts.reward_vault),
        &key(&accounts.reward_mint),
        &decryptable_zero_balance,
        65536,
        &key(&accounts.pull),
        &[],
        ProofLocation::ContextStateAccount(&key(&accounts.pubkey_validity_proof_data)),
    )
    .unwrap();
    assert_eq!(plan.configure.len(), 1);
    assert_eq!(plan.configure[0].instruction, expected_configure[0]);
    assert_eq!(
        plan.configure[0].accounts,
        vec![
            AccountRole::RewardVault,
            AccountRole::RewardMint,
            AccountRole::PubkeyValidityProofData,
            AccountRole::Pull
        ]
    );
    assert_eq!(plan.configure[0].authority, SigningAuthority::Pull);
    assert_eq!(plan.configure[0].on_failure, Some(GachaError::ConfigureTokenAccountFailed));
    assert_eq!(
        plan.close.instruction,
        close_context_state(
            ContextStateInfo {
                context_state_account: &key(&accounts.pubkey_validity_proof_data),
                context_state_authority: &key(&accounts.pull),
            },
            &key(&accounts.payer),
        )
    );
    assert_eq!(
        plan.close.accounts,
        vec![AccountRole::PubkeyValidityProofData, AccountRole::Payer, AccountRole::Pull]
    );
    assert_eq!(plan.close.authority, SigningAuthority::Pull);
    assert_eq!(plan.close.on_failure, Some(GachaError::CloseContextStateFailed));
}

#[test]
fn the_parts_of_a_creation_are_the_ones_that_it_plans() {
    let accounts = create_accounts();
    let ae_key = AeKey::new_rand();
    let zero = PodAeCiphertext::from(ae_key.encrypt(0));
    let allocate = initialize_token_account_with_extension(&accounts, 77).unwrap();
    assert_eq!(allocate.len(), 2);
    assert_eq!(reward_vault_space().unwrap(), 465);
    assert_eq!(MAXIMUM_PENDING_BALANCE_CREDIT_COUNTER, 65536);
    let configure = configure_token_account(&accounts, &balance_text(&zero)).unwrap();
    assert_eq!(configure.len(), 1);
    assert_eq!(
        gacha(configure_token_account(&accounts, &[b'?'; 48])),
        GachaError::DecryptableBalanceConversionFailed
    );
    let close = close_context_states(&accounts);
    assert_eq!(close.on_failure, Some(GachaError::CloseContextStateFailed));
}

#[test]
fn create_rejects_an_id_that_skips_ahead() {
    let mut game = game_with_pull();
    game.game_config.last_pull_id = 0;
    let before = game.game_config;
    let params = CreatePullParams {
        pull_id: 2,
        encrypted_amount: ciphertext_text(&game.committed),
        decryptable_zero_balance_base64: balance_text(&PodAeCiphertext::from(
            game.ae_key.encrypt(0),
        )),
    };
    let res = create_pull(&create_accounts(), &mut game.game_config, &params, 254, 1);
    assert_eq!(gacha(res), GachaError::InvalidPullId);
    assert_eq!(game.game_config.last_pull_id, 0);
    assert_eq!(game.game_config, before);
}

#[test]
fn create_rejects_every_id_but_the_next() {
    let mut game = game_with_pull();
    assert_eq!(game.game_config.last_pull_id, 1);
    for pull_id in [0u64, 1, 3, 100, u64::MAX] {
        let params = CreatePullParams {
            pull_id,
            encrypted_amount: ciphertext_text(&game.committed),
            decryptable_zero_balance_base64: balance_text(&PodAeCiphertext::from(
                game.ae_key.encrypt(0),
            )),
        };
        let res = create_pull(&create_accounts(), &mut game.game_config, &params, 254, 1);
        assert_eq!(gacha(res), GachaError::InvalidPullId);
        assert_eq!(game.game_config.last_pull_id, 1);
    }
}

#[test]
fn create_at_the_end_of_the_sequence_is_rejected() {
    let mut game = game_with_pull();
    game.game_config.last_pull_id = u64::MAX;
    let params = CreatePullParams {
        pull_id: 0,
        encrypted_amount: ciphertext_text(&game.committed),
        decryptable_zero_balance_base64: balance_text(&PodAeCiphertext::from(
            game.ae_key.encrypt(0),
        )),
    };
    let res = create_pull(&create_accounts(), &mut game.game_config, &params, 254, 1);
    assert_eq!(gacha(res), GachaError::InvalidPullId);
    assert_eq!(game.game_config.last_pull_id, u64::MAX);
}

#[test]
fn the_counter_is_n_after_n_creations() {
    let mut game = game_with_pull();
    for pull_id in 2..=5u64 {
        let params = CreatePullParams {
            pull_id,
            encrypted_amount: ciphertext_text(&game.committed),
            decryptable_zero_balance_base64: balance_text(&PodAeCiphertext::from(
                game.ae_key.encrypt(0),
            )),
        };
        let (pull, _) =
            create_pull(&create_accounts(), &mut game.game_config, &params, 254, 1).unwrap();
        assert_eq!(pull.id, pull_id);
        assert_eq!(game.game_config.last_pull_id, pull_id);
    }
    assert_eq!(game.game_config.last_pull_id, 5);
}

#[test]
fn create_signals_a_zero_balance_that_does_not_decode_as_a_failure_to_configure() {
    let mut game = game_with_pull();
    let params = CreatePullParams {
        pull_id: 2,
        encrypted_amount: ciphertext_text(&game.committed),
        decryptable_zero_balance_base64: [b'*'; 48],
    };
    let res = create_pull(&create_accounts(), &mut game.game_config, &params, 254, 1);
    assert_eq!(gacha(res), GachaError::ConfigureTokenAccountFailed);
    assert_eq!(game.game_config.last_pull_id, 1);
}

#[test]
fn test_apply_pull_pending_balance() {
    let game = game_with_pull();
    let available = PodElGamalCiphertext::from(game.keypair.pubkey().encrypt(0u64));
    let credits = 3;
    let vault = vault_data(&game.keypair, &available, credits);
    let snapshot = PodAeCiphertext::from(game.ae_key.encrypt(100_000_000_000));
    let accounts = ApplyPullPendingBalance {
        game_config: address(1),
        pull: address(10),
        reward_vault: address(11),
        authority: address(2),
        token_program: gacha_sol::utils::token_2022::Token2022::id(),
    };
    let params =
        ApplyPullPendingBalanceParams { new_decryptable_available_balance: balance_text(&snapshot) };
    let plan = apply_pull_pending_balance(&accounts, &game.pull, &params, &vault).unwrap();
    // The counter that the ledger is to expect is the one read from the escrow.
    assert_eq!(
        plan.apply.instruction,
        apply_pending_balance(
            &spl_token_2022::ID,
            &key(&accounts.reward_vault),
            credits,
            &snapshot,
            &key(&accounts.pull),
            &[],
        )
        .unwrap()
    );
    assert_ne!(
        plan.apply.instruction,
        apply_pending_balance(
            &spl_token_2022::ID,
            &key(&accounts.reward_vault),
            credits + 1,
            &snapshot,
            &key(&accounts.pull),
            &[],
        )
        .unwrap()
    );
    assert_eq!(plan.apply.accounts, vec![AccountRole::RewardVault, AccountRole::Pull]);
    assert_eq!(plan.apply.authority, SigningAuthority::Pull);
    assert_eq!(plan.apply.on_failure, None);
    assert_eq!(plan.event, PendingBalanceApplied { id: 1, pull: accounts.pull });
}

#[test]
fn apply_rejects_a_snapshot_that_does_not_decode() {
    let game = game_with_pull();
    let available = PodElGamalCiphertext::from(game.keypair.pubkey().encrypt(0u64));
    let vault = vault_data(&game.keypair, &available, 0);
    let accounts = ApplyPullPendingBalance {
        game_config: address(1),
        pull: address(10),
        reward_vault: address(11),
        authority: address(2),
        token_program: address(31),
    };
    let params = ApplyPullPendingBalanceParams { new_decryptable_available_balance: [0u8; 48] };
    let res = apply_pull_pending_balance(&accounts, &game.pull, &params, &vault);
    assert_eq!(gacha(res), GachaError::DecryptableBalanceConversionFailed);
    // A record that is no token account is the ledger's own error, and comes first.
    let res = apply_pull_pending_balance(&accounts, &game.pull, &params, &[1u8; 20]);
    assert!(matches!(res, Err(Failure::Program(_))));
}

#[test]
fn test_verify_pull() {
    let mut game = game_with_pull();
    let before = game.pull;
    let event = fund_and_verify(&mut game, REWARD).unwrap();
    assert_eq!(game.pull.verified, true);
    assert_eq!(event, PullVerified { id: 1, pull: address(10) });
    let params = verify_params(&game);
    assert_eq!(game.pull.equality_proof_account, address(14));
    assert_eq!(game.pull.ciphertext_validity_proof_account, address(15));
    assert_eq!(game.pull.range_proof_account, address(16));
    assert_eq!(game.pull.final_decryptable_available_balance.len(), 48);
    assert_eq!(params.transfer_amount_auditor_ciphertext_lo.len(), 88);
    assert_eq!(game.pull.id, before.id);
    assert_eq!(game.pull.encrypted_amount, before.encrypted_amount);
    assert_eq!(game.pull.buyer, None);
    assert_eq!(game.pull.claimed, false);
}

#[test]
fn verify_puts_the_parameters_of_the_reveal_on_record() {
    let mut game = game_with_pull();
    let available = PodElGamalCiphertext::from(game.keypair.pubkey().encrypt(REWARD));
    let vault = vault_data(&game.keypair, &available, 1);
    let rest = subtract(&available, &game.committed).unwrap();
    let certificate = proven_certificate(&game.game_config.authority, &game.keypair, &rest);
    let params = verify_params(&game);
    verify_pull(&verify_accounts(), &game.game_config, &mut game.pull, &params, &vault, &certificate)
        .unwrap();
    assert_eq!(
        game.pull.transfer_amount_auditor_ciphertext_lo,
        params.transfer_amount_auditor_ciphertext_lo
    );
    assert_eq!(
        game.pull.transfer_amount_auditor_ciphertext_hi,
        params.transfer_amount_auditor_ciphertext_hi
    );
    assert_eq!(
        game.pull.final_decryptable_available_balance,
        params.final_decryptable_available_balance
    );
}

#[test]
fn verify_fails_where_the_escrow_is_one_unit_short() {
    let mut game = game_with_pull();
    let before = game.pull;
    let available = PodElGamalCiphertext::from(game.keypair.pubkey().encrypt(REWARD - 1));
    let vault = vault_data(&game.keypair, &available, 1);
    // The remainder does not encrypt zero, so the verifier leaves no certificate for it.
    let rest = subtract(&available, &game.committed).unwrap();
    let rest_ciphertext: ElGamalCiphertext = rest.try_into().unwrap();
    let proof = ZeroCiphertextProofData::new(&game.keypair, &rest_ciphertext).unwrap();
    assert!(proof.verify_proof().is_err());
    // The certificate of an escrow that was funded in full does not fit this one.
    let full = PodElGamalCiphertext::from(game.keypair.pubkey().encrypt(REWARD));
    let zero = subtract(&full, &game.committed).unwrap();
    let certificate = proven_certificate(&game.game_config.authority, &game.keypair, &zero);
    let params = verify_params(&game);
    let res = verify_pull(
        &verify_accounts(),
        &game.game_config,
        &mut game.pull,
        &params,
        &vault,
        &certificate,
    );
    assert_eq!(gacha(res), GachaError::CiphertextZeroBalanceMismatch);
    assert_eq!(game.pull, before);
    assert_eq!(game.pull.verified, false);
    // And the pull cannot be bought.
    let res = buy_pull(&buy_accounts(address(20)), &game.game_config, &mut game.pull);
    assert_eq!(res, Err(GachaError::PullNotVerified));
    assert_eq!(game.pull, before);
}

struct Evidence {
    authority: Address,
    encrypted_amount: [u8; 88],
    vault: Vec<u8>,
    pubkey: PodElGamalPubkey,
    rest: PodElGamalCiphertext,
}

fn evidence(game: &Game) -> Evidence {
    let available = PodElGamalCiphertext::from(game.keypair.pubkey().encrypt(REWARD));
    Evidence {
        authority: game.game_config.authority,
        encrypted_amount: game.pull.encrypted_amount,
        vault: vault_data(&game.keypair, &available, 1),
        pubkey: PodElGamalPubkey::from(*game.keypair.pubkey()),
        rest: subtract(&available, &game.committed).unwrap(),
    }
}

#[test]
fn verify_accepts_the_certificate_of_the_remainder() {
    let game = game_with_pull();
    let e = evidence(&game);
    let certificate = certificate_data(&e.authority, ProofType::ZeroCiphertext, e.pubkey, e.rest);
    assert_eq!(certificate.len(), 129);
    assert!(verify_reward_balance(&e.authority, &e.encrypted_amount, &e.vault, &certificate).is_ok());
}

#[test]
fn verify_rejects_a_certificate_of_another_kind() {
    let game = game_with_pull();
    let e = evidence(&game);
    for kind in [ProofType::Uninitialized, ProofType::PubkeyValidity, ProofType::BatchedRangeProofU64] {
        let certificate = certificate_data(&e.authority, kind, e.pubkey, e.rest);
        let res = verify_reward_balance(&e.authority, &e.encrypted_amount, &e.vault, &certificate);
        assert_eq!(gacha(res), GachaError::InvalidProofType);
    }
}

#[test]
fn verify_rejects_a_certificate_under_another_key() {
    let game = game_with_pull();
    let e = evidence(&game);
    let other = ElGamalKeypair::new_rand();
    let certificate = certificate_data(
        &e.authority,
        ProofType::ZeroCiphertext,
        PodElGamalPubkey::from(*other.pubkey()),
        e.rest,
    );
    let res = verify_reward_balance(&e.authority, &e.encrypted_amount, &e.vault, &certificate);
    assert_eq!(gacha(res), GachaError::InvalidElgamalPubkey);
}

#[test]
fn verify_rejects_a_certificate_of_another_authority() {
    let game = game_with_pull();
    let e = evidence(&game);
    let certificate = certificate_data(&address(99), ProofType::ZeroCiphertext, e.pubkey, e.rest);
    let res = verify_reward_balance(&e.authority, &e.encrypted_amount, &e.vault, &certificate);
    assert_eq!(gacha(res), GachaError::InvalidContextAuthority);
}

#[test]
fn verify_rejects_a_certificate_for_another_ciphertext() {
    let game = game_with_pull();
    let e = evidence(&game);
    let other = PodElGamalCiphertext::from(game.keypair.pubkey().encrypt(0u64));
    let certificate = certificate_data(&e.authority, ProofType::ZeroCiphertext, e.pubkey, other);
    let res = verify_reward_balance(&e.authority, &e.encrypted_amount, &e.vault, &certificate);
    assert_eq!(gacha(res), GachaError::CiphertextZeroBalanceMismatch);
}

#[test]
fn verify_checks_the_certificate_in_order() {
    let game = game_with_pull();
    let e = evidence(&game);
    let other_key = PodElGamalPubkey::from(*ElGamalKeypair::new_rand().pubkey());
    let other_text = PodElGamalCiphertext::from(game.keypair.pubkey().encrypt(1u64));
    // Everything is wrong: the kind is named.
    let certificate = certificate_data(&address(99), ProofType::PubkeyValidity, other_key, other_text);
    let res = verify_reward_balance(&e.authority, &e.encrypted_amount, &e.vault, &certificate);
    assert_eq!(gacha(res), GachaError::InvalidProofType);
    // The kind is right: the key is named.
    let certificate = certificate_data(&address(99), ProofType::ZeroCiphertext, other_key, other_text);
    let res = verify_reward_balance(&e.authority, &e.encrypted_amount, &e.vault, &certificate);
    assert_eq!(gacha(res), GachaError::InvalidElgamalPubkey);
    // Kind and key are right: the authority is named.
    let certificate = certificate_data(&address(99), ProofType::ZeroCiphertext, e.pubkey, other_text);
    let res = verify_reward_balance(&e.authority, &e.encrypted_amount, &e.vault, &certificate);
    assert_eq!(gacha(res), GachaError::InvalidContextAuthority);
}

#[test]
fn verify_rejects_a_record_that_is_no_certificate() {
    let game = game_with_pull();
    let e = evidence(&game);
    let mut certificate = certificate_data(&e.authority, ProofType::ZeroCiphertext, e.pubkey, e.rest);
    certificate.push(0);
    let res = verify_reward_balance(&e.authority, &e.encrypted_amount, &e.vault, &certificate);
    assert!(matches!(res, Err(Failure::Program(ProgramError::InvalidArgument))));
    let res = verify_reward_balance(&e.authority, &e.encrypted_amount, &e.vault, &certificate[..128]);
    assert!(matches!(res, Err(Failure::Program(ProgramError::InvalidArgument))));
}

#[test]
fn verify_rejects_an_escrow_record_that_does_not_unpack() {
    let game = game_with_pull();
    let e = evidence(&game);
    let certificate = certificate_data(&e.authority, ProofType::ZeroCiphertext, e.pubkey, e.rest);
    let res = verify_reward_balance(&e.authority, &e.encrypted_amount, &[0u8; 165], &certificate);
    assert!(matches!(res, Err(Failure::Program(_))));
}

#[test]
fn verify_rejects_a_commitment_that_does_not_decode() {
    let game = game_with_pull();
    let e = evidence(&game);
    let certificate = certificate_data(&e.authority, ProofType::ZeroCiphertext, e.pubkey, e.rest);
    let res = verify_reward_balance(&e.authority, &[b'#'; 88], &e.vault, &certificate);
    assert_eq!(gacha(res), GachaError::CipherTextBalanceConversionFailed);
    let res = verify_reward_balance(&e.authority, &[0xff; 88], &e.vault, &certificate);
    assert_eq!(gacha(res), GachaError::CipherTextBalanceConversionFailed);
}

/// The base64 text of sixty-four bytes that hold no curve point.
fn no_points_text() -> [u8; 88] {
    let text = PodElGamalCiphertext::from([0xffu8; 64]).to_string();
    text.as_bytes().try_into().unwrap()
}

#[test]
fn verify_rejects_a_commitment_that_is_no_pair_of_points() {
    let game = game_with_pull();
    let e = evidence(&game);
    let certificate = certificate_data(&e.authority, ProofType::ZeroCiphertext, e.pubkey, e.rest);
    let res = verify_reward_balance(&e.authority, &no_points_text(), &e.vault, &certificate);
    assert_eq!(gacha(res), GachaError::CiphertextArithmeticFailed);
    // The remainder is computed before the certificate is looked at.
    let res = verify_reward_balance(&e.authority, &no_points_text(), &e.vault, &[0u8; 3]);
    assert_eq!(gacha(res), GachaError::CiphertextArithmeticFailed);
}

#[test]
fn check_certificate_holds_each_field_against_what_was_derived() {
    let certificate = ZeroCiphertextCertificate {
        context_state_authority: address(2),
        proof_type: 1,
        elgamal_pubkey: [7; 32],
        ciphertext: [9; 64],
    };
    assert_eq!(check_certificate(&certificate, &[7; 32], &address(2), &[9; 64]), Ok(()));
    let wrong_kind = ZeroCiphertextCertificate { proof_type: 0, ..certificate };
    assert_eq!(
        check_certificate(&wrong_kind, &[7; 32], &address(2), &[9; 64]),
        Err(GachaError::InvalidProofType)
    );
    let other_kind = ZeroCiphertextCertificate { proof_type: 2, ..certificate };
    assert_eq!(
        check_certificate(&other_kind, &[7; 32], &address(2), &[9; 64]),
        Err(GachaError::InvalidProofType)
    );
    let mut key = [7u8; 32];
    key[31] = 8;
    assert_eq!(
        check_certificate(&certificate, &key, &address(2), &[9; 64]),
        Err(GachaError::InvalidElgamalPubkey)
    );
    let mut authority = address(2);
    authority.bytes[0] = 3;
    assert_eq!(
        check_certificate(&certificate, &[7; 32], &authority, &[9; 64]),
        Err(GachaError::InvalidContextAuthority)
    );
    let mut rest = [9u8; 64];
    rest[63] = 0;
    assert_eq!(
        check_certificate(&certificate, &[7; 32], &address(2), &rest),
        Err(GachaError::CiphertextZeroBalanceMismatch)
    );
}

#[test]
fn test_buy_pull() {
    let mut game = game_with_pull();
    fund_and_verify(&mut game, REWARD).unwrap();
    assert!(game.pull.verified);
    let buyer = address(20);
    let accounts = buy_accounts(buyer);
    let before = game.pull;
    let plan = buy_pull(&accounts, &game.game_config, &mut game.pull).unwrap();
    assert_eq!(game.pull.buyer, Some(buyer));
    assert_eq!(
        plan.transfer,
        PurchaseTransfer {
            from: accounts.buyer_purchase_account,
            to: accounts.game_vault,
            authority: buyer,
            amount: 100_000_000,
        }
    );
    assert_eq!(plan.transfer, accounts.transfer_purchase(PULL_PRICE));
    assert_eq!(plan.event, PullBought { id: 1, pull: accounts.pull, buyer });
    assert_eq!(game.pull, Pull { buyer: Some(buyer), ..before });
}

#[test]
fn test_open_pull() {
    let mut game = game_with_pull();
    fund_and_verify(&mut game, REWARD).unwrap();
    assert!(game.pull.verified);
    let buyer = address(20);
    buy_pull(&buy_accounts(buyer), &game.game_config, &mut game.pull).unwrap();
    assert_eq!(game.pull.buyer, Some(buyer));

    let accounts = open_accounts(buyer);
    let snapshot = PodAeCiphertext::from(game.ae_key.encrypt(0));
    let params = OpenPullParams {
        pull_id: 1,
        amount: REWARD,
        decimals: 9,
        new_decryptable_available_balance: balance_text(&snapshot),
    };
    let before = game.pull;
    let plan = open_pull(&accounts, &mut game.pull, &params).unwrap();
    assert_eq!(game.pull.claimed, true);
    assert_eq!(game.pull.revealed_amount, REWARD);
    assert_eq!(
        game.pull,
        Pull {
            claimed: true,
            revealed_amount: 200_000_000,
            equality_proof_account: accounts.equality_proof_account,
            range_proof_account: accounts.range_proof_account,
            ..before
        }
    );
    let expected = withdraw(
        &spl_token_2022::ID,
        &key(&accounts.reward_vault),
        &key(&accounts.reward_mint),
        REWARD,
        9,
        &snapshot,
        &key(&accounts.pull),
        &[],
        ProofLocation::ContextStateAccount(&key(&accounts.equality_proof_account)),
        ProofLocation::ContextStateAccount(&key(&accounts.range_proof_account)),
    )
    .unwrap();
    assert_eq!(plan.withdraw.len(), 1);
    assert_eq!(plan.withdraw[0].instruction, expected[0]);
    assert_eq!(
        plan.withdraw[0].accounts,
        vec![
            AccountRole::RewardVault,
            AccountRole::RewardMint,
            AccountRole::EqualityProofAccount,
            AccountRole::RangeProofAccount,
            AccountRole::Pull
        ]
    );
    assert_eq!(plan.withdraw[0].authority, SigningAuthority::Pull);
    assert_eq!(plan.withdraw[0].on_failure, None);
    assert_eq!(
        plan.transfer,
        RewardTransfer {
            from: accounts.reward_vault,
            to: accounts.buyer_reward_account,
            authority: accounts.pull,
            mint: accounts.reward_mint,
            amount: 200_000_000,
            decimals: 9,
        }
    );
    assert_eq!(plan.event, PullClaimed { id: 1, pull: accounts.pull, buyer });
}

#[test]
fn test_basic_flow() {
    // Price 100_000_000; pull 1 commits to 200_000_000.
    let mut game = game_with_pull();
    assert_eq!(game.game_config.pull_price, 100_000_000);
    assert_eq!(game.game_config.last_pull_id, 1);
    assert_eq!(game.keypair.secret().decrypt_u32(&game.committed.try_into().unwrap()), Some(REWARD));

    // The escrow is funded with exactly 200_000_000 and verified.
    fund_and_verify(&mut game, 200_000_000).unwrap();
    assert_eq!(game.pull.verified, true);

    // B buys: the vault is owed the price.
    let buyer = address(20);
    let bought = buy_pull(&buy_accounts(buyer), &game.game_config, &mut game.pull).unwrap();
    assert_eq!(game.pull.buyer, Some(buyer));
    assert_eq!(bought.transfer.to, game.game_config.game_vault);
    assert_eq!(bought.transfer.amount, 100_000_000);

    // The reveal hands 200_000_000 to the buyer.
    let params = OpenPullParams {
        pull_id: 1,
        amount: 200_000_000,
        decimals: 9,
        new_decryptable_available_balance: balance_text(&PodAeCiphertext::from(
            game.ae_key.encrypt(0),
        )),
    };
    let accounts = open_accounts(buyer);
    let opened = open_pull(&accounts, &mut game.pull, &params).unwrap();
    assert_eq!(game.pull.claimed, true);
    assert_eq!(game.pull.revealed_amount, 200_000_000);
    assert_eq!(opened.transfer.to, accounts.buyer_reward_account);
    assert_eq!(opened.transfer.amount, 200_000_000);
}

#[test]
fn buy_is_refused_before_verification() {
    let mut game = game_with_pull();
    let before = game.pull;
    let res = buy_pull(&buy_accounts(address(20)), &game.game_config, &mut game.pull);
    assert_eq!(res, Err(GachaError::PullNotVerified));
    assert_eq!(game.pull, before);
}

#[test]
fn of_two_purchases_one_succeeds() {
    let mut game = game_with_pull();
    fund_and_verify(&mut game, REWARD).unwrap();
    let first = buy_pull(&buy_accounts(address(20)), &game.game_config, &mut game.pull);
    assert!(first.is_ok());
    let after_first = game.pull;
    let second = buy_pull(&buy_accounts(address(23)), &game.game_config, &mut game.pull);
    assert_eq!(second, Err(GachaError::PullAlreadyPurchased));
    assert_eq!(game.pull, after_first);
    assert_eq!(game.pull.buyer, Some(address(20)));
    // The same buyer again fares no better.
    let again = buy_pull(&buy_accounts(address(20)), &game.game_config, &mut game.pull);
    assert_eq!(again, Err(GachaError::PullAlreadyPurchased));
}

#[test]
fn buy_is_refused_once_claimed() {
    let mut game = game_with_pull();
    game.pull.verified = true;
    game.pull.claimed = true;
    let before = game.pull;
    let res = buy_pull(&buy_accounts(address(20)), &game.game_config, &mut game.pull);
    assert_eq!(res, Err(GachaError::PullAlreadyClaimed));
    assert_eq!(game.pull, before);
}

#[test]
fn buy_names_the_first_rule_that_is_broken() {
    let mut game = game_with_pull();
    game.pull.buyer = Some(address(20));
    game.pull.verified = false;
    game.pull.claimed = true;
    assert_eq!(game.pull.check_purchase(), Err(GachaError::PullAlreadyPurchased));
    game.pull.buyer = None;
    assert_eq!(game.pull.check_purchase(), Err(GachaError::PullNotVerified));
    game.pull.verified = true;
    assert_eq!(game.pull.check_purchase(), Err(GachaError::PullAlreadyClaimed));
    game.pull.claimed = false;
    assert_eq!(game.pull.check_purchase(), Ok(()));
}

fn bought_game() -> (Game, Address) {
    let mut game = game_with_pull();
    fund_and_verify(&mut game, REWARD).unwrap();
    let buyer = address(20);
    buy_pull(&buy_accounts(buyer), &game.game_config, &mut game.pull).unwrap();
    (game, buyer)
}

fn open_params(game: &Game, amount: u64) -> OpenPullParams {
    OpenPullParams {
        pull_id: 1,
        amount,
        decimals: 9,
        new_decryptable_available_balance: balance_text(&PodAeCiphertext::from(
            game.ae_key.encrypt(0),
        )),
    }
}

#[test]
fn open_is_refused_to_anyone_but_the_buyer() {
    let (mut game, _) = bought_game();
    let before = game.pull;
    let params = open_params(&game, REWARD);
    let res = open_pull(&open_accounts(address(23)), &mut game.pull, &params);
    assert_eq!(gacha(res), GachaError::InvalidBuyer);
    assert_eq!(game.pull, before);
}

#[test]
fn open_is_refused_on_a_pull_without_a_buyer() {
    let mut game = game_with_pull();
    fund_and_verify(&mut game, REWARD).unwrap();
    let before = game.pull;
    let params = open_params(&game, REWARD);
    let res = open_pull(&open_accounts(Address { bytes: [0; 32] }), &mut game.pull, &params);
    assert_eq!(gacha(res), GachaError::InvalidBuyer);
    let res = claim_pull(&claim_accounts(Address { bytes: [0; 32] }), &mut game.pull, REWARD);
    assert_eq!(gacha(res), GachaError::InvalidBuyer);
    assert_eq!(game.pull, before);
}

#[test]
fn a_second_reveal_fails_and_leaves_the_amount() {
    let (mut game, buyer) = bought_game();
    let params = open_params(&game, REWARD);
    open_pull(&open_accounts(buyer), &mut game.pull, &params).unwrap();
    let after_first = game.pull;
    assert_eq!(after_first.revealed_amount, REWARD);

    let again = open_params(&game, 5);
    let res = open_pull(&open_accounts(buyer), &mut game.pull, &again);
    assert_eq!(gacha(res), GachaError::PullAlreadyClaimed);
    assert_eq!(game.pull, after_first);
    assert_eq!(game.pull.revealed_amount, REWARD);

    let res = claim_pull(&claim_accounts(buyer), &mut game.pull, 5);
    assert_eq!(gacha(res), GachaError::PullAlreadyClaimed);
    assert_eq!(game.pull, after_first);

    // Someone else is told that they are not the buyer.
    let res = open_pull(&open_accounts(address(23)), &mut game.pull, &again);
    assert_eq!(gacha(res), GachaError::InvalidBuyer);
    assert_eq!(game.pull.revealed_amount, REWARD);
}

#[test]
fn open_rejects_a_snapshot_that_does_not_decode() {
    let (mut game, buyer) = bought_game();
    let before = game.pull;
    let params = OpenPullParams {
        pull_id: 1,
        amount: REWARD,
        decimals: 9,
        new_decryptable_available_balance: [b' '; 48],
    };
    let res = open_pull(&open_accounts(buyer), &mut game.pull, &params);
    assert_eq!(gacha(res), GachaError::DecryptableBalanceConversionFailed);
    assert_eq!(game.pull, before);
    assert_eq!(
        gacha(withdraw_reward(&open_accounts(buyer), REWARD, 9, &[b' '; 48])),
        GachaError::DecryptableBalanceConversionFailed
    );
}

#[test]
fn open_resolves_accounts_that_share_an_address_to_the_first() {
    let (mut game, buyer) = bought_game();
    let params = open_params(&game, REWARD);
    let mut accounts = open_accounts(buyer);
    accounts.range_proof_account = accounts.equality_proof_account;
    let plan = open_pull(&accounts, &mut game.pull, &params).unwrap();
    assert_eq!(
        plan.withdraw[0].accounts,
        vec![
            AccountRole::RewardVault,
            AccountRole::RewardMint,
            AccountRole::EqualityProofAccount,
            AccountRole::EqualityProofAccount,
            AccountRole::Pull
        ]
    );
}

#[test]
fn test_claim_pull() {
    let (mut game, buyer) = bought_game();
    let accounts = claim_accounts(buyer);
    let before = game.pull;
    let plan = claim_pull(&accounts, &mut game.pull, REWARD).unwrap();
    assert_eq!(game.pull, Pull { claimed: true, revealed_amount: REWARD, ..before });
    assert_eq!(plan.event, PullClaimed { id: 1, pull: accounts.pull, buyer });

    let snapshot_bytes = decode_decryptable_balance(&before.final_decryptable_available_balance).unwrap();
    let lo = decode_encrypted_balance(&before.transfer_amount_auditor_ciphertext_lo).unwrap();
    let hi = decode_encrypted_balance(&before.transfer_amount_auditor_ciphertext_hi).unwrap();
    let expected = transfer(
        &spl_token_2022::ID,
        &key(&accounts.reward_vault),
        &key(&accounts.reward_mint),
        &key(&accounts.buyer_reward_account),
        &PodAeCiphertext::from(snapshot_bytes),
        &PodElGamalCiphertext::from(lo),
        &PodElGamalCiphertext::from(hi),
        &key(&accounts.pull),
        &[],
        ProofLocation::ContextStateAccount(&key(&before.equality_proof_account)),
        ProofLocation::ContextStateAccount(&key(&before.ciphertext_validity_proof_account)),
        ProofLocation::ContextStateAccount(&key(&before.range_proof_account)),
    )
    .unwrap();
    assert_eq!(plan.transfer.len(), 1);
    assert_eq!(plan.transfer[0].instruction, expected[0]);
    assert_eq!(
        plan.transfer[0].accounts,
        vec![
            AccountRole::RewardVault,
            AccountRole::RewardMint,
            AccountRole::BuyerRewardAccount,
            AccountRole::EqualityProofAccount,
            AccountRole::CiphertextValidityProofAccount,
            AccountRole::RangeProofAccount,
            AccountRole::Pull
        ]
    );
    assert_eq!(plan.transfer[0].authority, SigningAuthority::Pull);
}

#[test]
fn claim_fails_closed_on_a_certificate_that_the_request_does_not_know() {
    let (mut game, buyer) = bought_game();
    let before = game.pull;
    let mut accounts = claim_accounts(buyer);
    // The request brings another certificate than the one on record.
    accounts.range_proof_account = address(77);
    let res = claim_pull(&accounts, &mut game.pull, REWARD);
    assert_eq!(gacha(res), GachaError::InvalidAccount);
    assert_eq!(game.pull, before);
}

#[test]
fn claim_decodes_what_is_on_record_in_order() {
    let (mut game, buyer) = bought_game();
    let accounts = claim_accounts(buyer);
    let good = game.pull;

    game.pull.transfer_amount_auditor_ciphertext_hi = [b'!'; 88];
    let before = game.pull;
    let res = claim_pull(&accounts, &mut game.pull, REWARD);
    assert_eq!(gacha(res), GachaError::CipherTextBalanceConversionFailed);
    assert_eq!(game.pull, before);

    game.pull = good;
    game.pull.transfer_amount_auditor_ciphertext_lo = [b'!'; 88];
    let res = claim_pull(&accounts, &mut game.pull, REWARD);
    assert_eq!(gacha(res), GachaError::CipherTextBalanceConversionFailed);

    game.pull.final_decryptable_available_balance = [b'!'; 48];
    let res = claim_pull(&accounts, &mut game.pull, REWARD);
    assert_eq!(gacha(res), GachaError::DecryptableBalanceConversionFailed);
    assert_eq!(game.pull.claimed, false);
}

#[test]
fn decoding_gives_the_bytes_that_the_text_encodes() {
    let keypair = ElGamalKeypair::new_rand();
    let ae_key = AeKey::new_rand();
    let ciphertext = PodElGamalCiphertext::from(keypair.pubkey().encrypt(42u64));
    let balance = PodAeCiphertext::from(ae_key.encrypt(42));
    let decoded = decode_encrypted_balance(&ciphertext_text(&ciphertext)).unwrap();
    assert_eq!(decoded, ciphertext_bytes(&ciphertext));
    assert_eq!(PodElGamalCiphertext::from(decoded), ciphertext);
    let decoded = decode_decryptable_balance(&balance_text(&balance)).unwrap();
    assert_eq!(&decoded[..], bytemuck::bytes_of(&balance));
    assert_eq!(ae_key.decrypt(&PodAeCiphertext::from(decoded).try_into().unwrap()), Some(42));
    // A known text: forty-eight times `A` is thirty-six zero bytes.
    assert_eq!(decode_decryptable_balance(&[b'A'; 48]), Ok([0u8; 36]));
    let mut zeros = [b'A'; 88];
    zeros[86] = b'=';
    zeros[87] = b'=';
    assert_eq!(decode_encrypted_balance(&zeros), Ok([0u8; 64]));
}

#[test]
fn decoding_rejects_what_is_no_encoding() {
    assert_eq!(
        decode_decryptable_balance(&[0xc3; 48]),
        Err(GachaError::DecryptableBalanceConversionFailed)
    );
    assert_eq!(
        decode_decryptable_balance(&[b'-'; 48]),
        Err(GachaError::DecryptableBalanceConversionFailed)
    );
    assert_eq!(
        decode_encrypted_balance(&[0u8; 88]),
        Err(GachaError::CipherTextBalanceConversionFailed)
    );
    // Valid base64, but of sixty-six bytes.
    assert_eq!(
        decode_encrypted_balance(&[b'A'; 88]),
        Err(GachaError::CipherTextBalanceConversionFailed)
    );
}

#[test]
fn the_remainder_encrypts_the_difference() {
    let keypair = ElGamalKeypair::new_rand();
    let available = PodElGamalCiphertext::from(keypair.pubkey().encrypt(1_000u64));
    let committed = PodElGamalCiphertext::from(keypair.pubkey().encrypt(993u64));
    let rest = remainder(&ciphertext_bytes(&available), &ciphertext_bytes(&committed)).unwrap();
    assert_ne!(rest, ciphertext_bytes(&available));
    assert_eq!(PodElGamalCiphertext::from(rest), subtract(&available, &committed).unwrap());
    let rest: ElGamalCiphertext = PodElGamalCiphertext::from(rest).try_into().unwrap();
    assert_eq!(keypair.secret().decrypt_u32(&rest), Some(7));
}

#[test]
fn equal_amounts_leave_a_remainder_of_zero() {
    let keypair = ElGamalKeypair::new_rand();
    let available = PodElGamalCiphertext::from(keypair.pubkey().encrypt(REWARD));
    let committed = PodElGamalCiphertext::from(keypair.pubkey().encrypt(REWARD));
    assert_ne!(available, committed);
    let rest = remainder(&ciphertext_bytes(&available), &ciphertext_bytes(&committed)).unwrap();
    let rest: ElGamalCiphertext = PodElGamalCiphertext::from(rest).try_into().unwrap();
    assert_eq!(keypair.secret().decrypt_u32(&rest), Some(0));
    let proof = ZeroCiphertextProofData::new(&keypair, &rest).unwrap();
    assert!(proof.verify_proof().is_ok());
}

#[test]
fn the_remainder_of_what_is_no_point_fails() {
    let keypair = ElGamalKeypair::new_rand();
    let available = PodElGamalCiphertext::from(keypair.pubkey().encrypt(1u64));
    assert_eq!(
        remainder(&ciphertext_bytes(&available), &[0xff; 64]),
        Err(GachaError::CiphertextArithmeticFailed)
    );
    assert_eq!(
        remainder(&[0xff; 64], &ciphertext_bytes(&available)),
        Err(GachaError::CiphertextArithmeticFailed)
    );
}

fn named_accounts(instruction: &anchor_lang::solana_program::instruction::Instruction) -> Vec<Address> {
    instruction.accounts.iter().map(|meta| Address { bytes: meta.pubkey.to_bytes() }).collect()
}

#[test]
fn the_planned_calls_name_their_accounts_in_order() {
    let mut game = game_with_pull();
    let accounts = create_accounts();
    let params = CreatePullParams {
        pull_id: 2,
        encrypted_amount: ciphertext_text(&game.committed),
        decryptable_zero_balance_base64: balance_text(&PodAeCiphertext::from(
            game.ae_key.encrypt(0),
        )),
    };
    let (_, plan) = create_pull(&accounts, &mut game.game_config, &params, 254, 1).unwrap();
    assert_eq!(
        named_accounts(&plan.allocate[0].instruction),
        vec![accounts.payer, accounts.reward_vault]
    );
    assert_eq!(
        named_accounts(&plan.allocate[1].instruction),
        vec![accounts.reward_vault, accounts.reward_mint]
    );
    assert_eq!(
        named_accounts(&plan.configure[0].instruction),
        vec![
            accounts.reward_vault,
            accounts.reward_mint,
            accounts.pubkey_validity_proof_data,
            accounts.pull
        ]
    );
    assert_eq!(
        named_accounts(&plan.close.instruction),
        vec![accounts.pubkey_validity_proof_data, accounts.payer, accounts.pull]
    );

    let available = PodElGamalCiphertext::from(game.keypair.pubkey().encrypt(0u64));
    let vault = vault_data(&game.keypair, &available, 0);
    let apply_accounts = ApplyPullPendingBalance {
        game_config: address(1),
        pull: address(10),
        reward_vault: address(11),
        authority: address(2),
        token_program: address(31),
    };
    let apply_params = ApplyPullPendingBalanceParams {
        new_decryptable_available_balance: balance_text(&PodAeCiphertext::from(
            game.ae_key.encrypt(1),
        )),
    };
    let plan = apply_pull_pending_balance(&apply_accounts, &game.pull, &apply_params, &vault).unwrap();
    assert_eq!(
        named_accounts(&plan.apply.instruction),
        vec![apply_accounts.reward_vault, apply_accounts.pull]
    );

    let (mut game, buyer) = bought_game();
    let open = open_accounts(buyer);
    let open_plan = open_pull(&open, &mut game.pull.clone(), &open_params(&game, REWARD)).unwrap();
    assert_eq!(
        named_accounts(&open_plan.withdraw[0].instruction),
        vec![
            open.reward_vault,
            open.reward_mint,
            open.equality_proof_account,
            open.range_proof_account,
            open.pull
        ]
    );
    let claim = claim_accounts(buyer);
    let on_record = game.pull;
    let claim_plan = claim_pull(&claim, &mut game.pull, REWARD).unwrap();
    assert_eq!(
        named_accounts(&claim_plan.transfer[0].instruction),
        vec![
            claim.reward_vault,
            claim.reward_mint,
            claim.buyer_reward_account,
            on_record.equality_proof_account,
            on_record.ciphertext_validity_proof_account,
            on_record.range_proof_account,
            claim.pull
        ]
    );
}

#[test]
fn a_certificate_is_read_field_after_field() {
    let game = game_with_pull();
    let e = evidence(&game);
    // The record, laid out by hand: authority, kind, key, ciphertext.
    let mut record = Vec::new();
    record.extend_from_slice(&e.authority.bytes);
    record.push(1);
    record.extend_from_slice(bytemuck::bytes_of(&e.pubkey));
    record.extend_from_slice(bytemuck::bytes_of(&e.rest));
    assert_eq!(record.len(), 129);
    assert!(verify_reward_balance(&e.authority, &e.encrypted_amount, &e.vault, &record).is_ok());
    // Key and authority in each other's place are no such certificate.
    let mut swapped = Vec::new();
    swapped.extend_from_slice(bytemuck::bytes_of(&e.pubkey));
    swapped.push(1);
    swapped.extend_from_slice(&e.authority.bytes);
    swapped.extend_from_slice(bytemuck::bytes_of(&e.rest));
    let res = verify_reward_balance(&e.authority, &e.encrypted_amount, &e.vault, &swapped);
    assert_eq!(gacha(res), GachaError::InvalidElgamalPubkey);
    // One bit of the ciphertext flipped is a mismatch.
    let mut flipped = record.clone();
    flipped[128] ^= 1;
    let res = verify_reward_balance(&e.authority, &e.encrypted_amount, &e.vault, &flipped);
    assert_eq!(gacha(res), GachaError::CiphertextZeroBalanceMismatch);
    let mut flipped = record.clone();
    flipped[0] ^= 0x80;
    let res = verify_reward_balance(&e.authority, &e.encrypted_amount, &e.vault, &flipped);
    assert_eq!(gacha(res), GachaError::InvalidContextAuthority);
    let mut flipped = record;
    flipped[32] = 3;
    let res = verify_reward_balance(&e.authority, &e.encrypted_amount, &e.vault, &flipped);
    assert_eq!(gacha(res), GachaError::InvalidProofType);
}
