//! Creation: a pull is committed, and its escrow is allocated and configured
//! for confidential balances.

use vstd::prelude::*;
use vstd::bytes::spec_u64_to_le_bytes;
use anchor_lang::solana_program::instruction::Instruction;
use crate::address::Address;
use crate::error::{Failure, FailureKind, GachaError};
use crate::event::PullCreated;
use crate::invocation::{
    all_resolvable, lemma_resolve_known, plan_resolves, resolve, resolve_all,
    resolve_instructions, AccountRole, Invocation, KnownAccount, SigningAuthority,
};
use crate::ledger::ciphertext::{decode_decryptable_balance, decryptable_balance_of};
use crate::ledger::instruction::{
    build_close_context_state, build_configure_account, build_create_account,
    build_initialize_account, close_context_state_instruction, confidential_account_len,
    configure_account_instruction, create_account_instruction, initialize_account_instruction,
    instruction_accounts, CONFIDENTIAL_ACCOUNT_LEN,
};
use crate::pda::pull_id_seed;
use crate::state::{CreatePullParams, GameConfig, Pull};
use crate::utils::token_2022::{Token2022, TOKEN_2022_PROGRAM_ID};

verus! {

/// How many credits an escrow's pending balance may take before it must be
/// applied.
pub const MAXIMUM_PENDING_BALANCE_CREDIT_COUNTER: u64 = 65536;

/// The accounts of a creation request.
#[derive(Debug, Clone, Copy, PartialEq, Eq)]
pub struct CreatePull {
    pub pull: Address,
    pub game_config: Address,
    pub reward_vault: Address,
    pub reward_mint: Address,
    /// The certificate that the escrow's encryption key is well formed.
    pub pubkey_validity_proof_data: Address,
    pub authority: Address,
    pub payer: Address,
    pub system_program: Address,
    pub token_program: Address,
    pub rent: Address,
}

impl CreatePull {
    /// The accounts that the ledger's sub-operations may name.
    pub open spec fn spec_known_accounts(&self) -> Seq<KnownAccount> {
        seq![
            KnownAccount { address: self.reward_vault, role: AccountRole::RewardVault },
            KnownAccount { address: self.reward_mint, role: AccountRole::RewardMint },
            KnownAccount {
                address: self.pubkey_validity_proof_data,
                role: AccountRole::PubkeyValidityProofData,
            },
            KnownAccount { address: self.pull, role: AccountRole::Pull },
        ]
    }

    /// The table of the accounts that the ledger's sub-operations may name.
    pub fn known_accounts(&self) -> (table: Vec<KnownAccount>)
        ensures
            table@ == self.spec_known_accounts(),
    {
        let mut table: Vec<KnownAccount> = Vec::new();
        table.push(KnownAccount { address: self.reward_vault, role: AccountRole::RewardVault });
        table.push(KnownAccount { address: self.reward_mint, role: AccountRole::RewardMint });
        table.push(
            KnownAccount {
                address: self.pubkey_validity_proof_data,
                role: AccountRole::PubkeyValidityProofData,
            },
        );
        table.push(KnownAccount { address: self.pull, role: AccountRole::Pull });
        assert(table@ =~= self.spec_known_accounts());
        table
    }
}

/// The size of the escrow's account: a token account with the
/// confidential-transfer extension.
pub fn reward_vault_space() -> (res: Result<usize, Failure>)
    ensures
        res matches Ok(space) && space == CONFIDENTIAL_ACCOUNT_LEN,
{
    match confidential_account_len() {
        Ok(space) => Ok(space),
        Err(error) => Err(Failure::Program(error)),
    }
}

/// Whether a plan allocates the escrow and initialises it as a token account
/// of the reward asset that the pull owns: the allocation, funded with
/// `lamports` by the payer and signed in the escrow's own name, and then the
/// initialisation.
pub open spec fn allocates_reward_vault(plan: Seq<Invocation>, accounts: CreatePull, lamports: u64) -> bool {
    &&& plan.len() == 2
    &&& plan[0].instruction == create_account_instruction(
        accounts.payer@,
        accounts.reward_vault@,
        lamports,
        CONFIDENTIAL_ACCOUNT_LEN as u64,
        TOKEN_2022_PROGRAM_ID@,
    )
    &&& plan[0].accounts@ == seq![
        AccountRole::Payer,
        AccountRole::RewardVault,
        AccountRole::SystemProgram,
    ]
    &&& plan[0].authority == SigningAuthority::RewardVault
    &&& plan[0].on_failure == None::<GachaError>
    &&& plan[1].instruction == initialize_account_instruction(
        accounts.reward_vault@,
        accounts.reward_mint@,
        accounts.pull@,
    )
    &&& plan[1].accounts@ == seq![
        AccountRole::RewardVault,
        AccountRole::RewardMint,
        AccountRole::Pull,
        AccountRole::Rent,
    ]
    &&& plan[1].authority == SigningAuthority::Request
    &&& plan[1].on_failure == None::<GachaError>
}

/// Plans the allocation of the escrow, funded with `lamports`, and its
/// initialisation as a token account that the pull owns.
pub fn initialize_token_account_with_extension(accounts: &CreatePull, lamports: u64) -> (res:
    Result<Vec<Invocation>, Failure>)
    ensures
        res matches Ok(plan) && allocates_reward_vault(plan@, *accounts, lamports),
{
    let required_space = match reward_vault_space() {
        Ok(space) => space,
        Err(failure) => return Err(failure),
    };
    let token_program_id = Token2022::id();
    let create_account = build_create_account(
        &accounts.payer,
        &accounts.reward_vault,
        lamports,
        required_space as u64,
        &token_program_id,
    );
    let initialize_account = match build_initialize_account(
        &accounts.reward_vault,
        &accounts.reward_mint,
        &accounts.pull,
    ) {
        Ok(instruction) => instruction,
        Err(error) => return Err(Failure::Program(error)),
    };
    let mut create_accounts: Vec<AccountRole> = Vec::new();
    create_accounts.push(AccountRole::Payer);
    create_accounts.push(AccountRole::RewardVault);
    create_accounts.push(AccountRole::SystemProgram);
    let mut initialize_accounts: Vec<AccountRole> = Vec::new();
    initialize_accounts.push(AccountRole::RewardVault);
    initialize_accounts.push(AccountRole::RewardMint);
    initialize_accounts.push(AccountRole::Pull);
    initialize_accounts.push(AccountRole::Rent);
    let mut plan: Vec<Invocation> = Vec::new();
    plan.push(
        Invocation {
            instruction: create_account,
            accounts: create_accounts,
            authority: SigningAuthority::RewardVault,
            on_failure: None,
        },
    );
    plan.push(
        Invocation {
            instruction: initialize_account,
            accounts: initialize_accounts,
            authority: SigningAuthority::Request,
            on_failure: None,
        },
    );
    assert(plan@[0].accounts@ =~= seq![
        AccountRole::Payer,
        AccountRole::RewardVault,
        AccountRole::SystemProgram,
    ]);
    assert(plan@[1].accounts@ =~= seq![
        AccountRole::RewardVault,
        AccountRole::RewardMint,
        AccountRole::Pull,
        AccountRole::Rent,
    ]);
    Ok(plan)
}

/// The accounts that the configuration names.
pub open spec fn configuration_accounts(accounts: CreatePull) -> Seq<Seq<u8>> {
    seq![
        accounts.reward_vault@,
        accounts.reward_mint@,
        accounts.pubkey_validity_proof_data@,
        accounts.pull@,
    ]
}

/// The configuration of the escrow for confidential balances, under the
/// pull's authority, with the given zero balance and the request's
/// certificate; the failure where the zero balance does not decode.
pub open spec fn configuration_instruction(
    accounts: CreatePull,
    decryptable_zero_balance_base64: Seq<u8>,
) -> Result<Instruction, GachaError> {
    match decryptable_balance_of(decryptable_zero_balance_base64) {
        None => Err(GachaError::DecryptableBalanceConversionFailed),
        Some(balance) => Ok(
            configure_account_instruction(
                accounts.reward_vault@,
                accounts.reward_mint@,
                balance,
                MAXIMUM_PENDING_BALANCE_CREDIT_COUNTER,
                accounts.pull@,
                accounts.pubkey_validity_proof_data@,
            ),
        ),
    }
}

/// The request knows every account that the configuration names.
pub proof fn lemma_configuration_accounts_known(accounts: CreatePull)
    ensures
        resolve_all(accounts.spec_known_accounts(), configuration_accounts(accounts)) is Some,
{
    let table = accounts.spec_known_accounts();
    let keys = configuration_accounts(accounts);
    assert forall|i: int| 0 <= i < keys.len() implies resolve(table, #[trigger] keys[i]) is Some by {
        lemma_resolve_known(table, i);
    }
}

/// Plans the configuration of the escrow for confidential balances: decodes
/// the zero balance, has the ledger's library build the configuration, and
/// resolves every account that it names against the accounts of the request.
/// The configuration is signed in the pull's name.
pub fn configure_token_account(
    accounts: &CreatePull,
    decryptable_zero_balance_base64: &[u8; 48],
) -> (res: Result<Vec<Invocation>, Failure>)
    ensures
        match configuration_instruction(*accounts, decryptable_zero_balance_base64@) {
            Ok(instruction) => {
                &&& res matches Ok(plan)
                &&& plan_resolves(
                    plan@,
                    accounts.spec_known_accounts(),
                    seq![instruction],
                    SigningAuthority::Pull,
                    Some(GachaError::ConfigureTokenAccountFailed),
                )
                &&& instruction_accounts(instruction) == configuration_accounts(*accounts)
            },
            Err(error) => res matches Err(failure) && failure@ == FailureKind::Gacha(error),
        },
{
    let decryptable_zero_balance = match decode_decryptable_balance(decryptable_zero_balance_base64) {
        Ok(balance) => balance,
        Err(error) => return Err(Failure::Gacha(error)),
    };
    let instructions = match build_configure_account(
        &accounts.reward_vault,
        &accounts.reward_mint,
        &decryptable_zero_balance,
        MAXIMUM_PENDING_BALANCE_CREDIT_COUNTER,
        &accounts.pull,
        &accounts.pubkey_validity_proof_data,
    ) {
        Ok(instructions) => instructions,
        Err(error) => return Err(Failure::Program(error)),
    };
    proof {
        assert(instruction_accounts(instructions@[0]) =~= configuration_accounts(*accounts));
        lemma_configuration_accounts_known(*accounts);
        assert(all_resolvable(accounts.spec_known_accounts(), instructions@));
    }
    let table = accounts.known_accounts();
    match resolve_instructions(
        &table,
        instructions,
        SigningAuthority::Pull,
        Some(GachaError::ConfigureTokenAccountFailed),
    ) {
        Ok(plan) => Ok(plan),
        Err(error) => Err(Failure::Gacha(error)),
    }
}

/// Whether an invocation closes the request's certificate in the pull's
/// name and sends what it held to the payer.
pub open spec fn closes_certificate(invocation: Invocation, accounts: CreatePull) -> bool {
    &&& invocation.instruction == close_context_state_instruction(
        accounts.pubkey_validity_proof_data@,
        accounts.pull@,
        accounts.payer@,
    )
    &&& invocation.accounts@ == seq![
        AccountRole::PubkeyValidityProofData,
        AccountRole::Payer,
        AccountRole::Pull,
    ]
    &&& invocation.authority == SigningAuthority::Pull
    &&& invocation.on_failure == Some(GachaError::CloseContextStateFailed)
}

/// Plans the closing of the certificate that the configuration consumed.
pub fn close_context_states(accounts: &CreatePull) -> (invocation: Invocation)
    ensures
        closes_certificate(invocation, *accounts),
{
    let instruction = build_close_context_state(
        &accounts.pubkey_validity_proof_data,
        &accounts.pull,
        &accounts.payer,
    );
    let mut roles: Vec<AccountRole> = Vec::new();
    roles.push(AccountRole::PubkeyValidityProofData);
    roles.push(AccountRole::Payer);
    roles.push(AccountRole::Pull);
    assert(roles@ =~= seq![
        AccountRole::PubkeyValidityProofData,
        AccountRole::Payer,
        AccountRole::Pull,
    ]);
    Invocation {
        instruction,
        accounts: roles,
        authority: SigningAuthority::Pull,
        on_failure: Some(GachaError::CloseContextStateFailed),
    }
}

/// What a creation asks of the ledger, in this order, and what it announces.
#[derive(Debug)]
pub struct CreatePullPlan {
    /// The allocation and the initialisation of the escrow.
    pub allocate: Vec<Invocation>,
    /// The configuration of the escrow for confidential balances.
    pub configure: Vec<Invocation>,
    /// The closing of the configuration's certificate.
    pub close: Invocation,
    pub event: PullCreated,
}

/// Whether the plans bring the escrow into being: allocated, initialised,
/// and configured with `instruction`.
pub open spec fn creates_reward_vault(
    allocate: Seq<Invocation>,
    configure: Seq<Invocation>,
    accounts: CreatePull,
    lamports: u64,
    instruction: Instruction,
) -> bool {
    &&& allocates_reward_vault(allocate, accounts, lamports)
    &&& plan_resolves(
        configure,
        accounts.spec_known_accounts(),
        seq![instruction],
        SigningAuthority::Pull,
        Some(GachaError::ConfigureTokenAccountFailed),
    )
}

/// The configuration that a creation plans; where it cannot be planned, the
/// failure is that the escrow could not be configured.
pub open spec fn vault_ruling(accounts: CreatePull, decryptable_zero_balance_base64: Seq<u8>) -> Result<
    Instruction,
    GachaError,
> {
    match configuration_instruction(accounts, decryptable_zero_balance_base64) {
        Ok(instruction) => Ok(instruction),
        Err(_) => Err(GachaError::ConfigureTokenAccountFailed),
    }
}

/// Plans the escrow: its allocation, its initialisation and its
/// configuration for confidential balances. Whatever keeps the configuration
/// from being planned is signalled as a failure to configure.
pub fn create_and_configure_reward_vault(
    accounts: &CreatePull,
    lamports: u64,
    decryptable_zero_balance_base64: &[u8; 48],
) -> (res: Result<(Vec<Invocation>, Vec<Invocation>), Failure>)
    ensures
        match vault_ruling(*accounts, decryptable_zero_balance_base64@) {
            Ok(instruction) => {
                &&& res matches Ok(plans)
                &&& creates_reward_vault(plans.0@, plans.1@, *accounts, lamports, instruction)
            },
            Err(error) => res matches Err(failure) && failure@ == FailureKind::Gacha(error),
        },
{
    let allocate = match initialize_token_account_with_extension(accounts, lamports) {
        Ok(allocate) => allocate,
        Err(failure) => return Err(failure),
    };
    let configure = match configure_token_account(accounts, decryptable_zero_balance_base64) {
        Ok(configure) => configure,
        Err(_) => return Err(Failure::Gacha(GachaError::ConfigureTokenAccountFailed)),
    };
    Ok((allocate, configure))
}

/// Whether a pull is the one that a creation persists: committed, with its
/// escrow, and with nothing of its later life on record yet.
pub open spec fn is_created_pull(pull: Pull, accounts: CreatePull, params: CreatePullParams, bump: u8) -> bool {
    &&& pull.id == params.pull_id
    &&& pull.reward_vault == accounts.reward_vault
    &&& pull.encrypted_amount == params.encrypted_amount
    &&& pull.buyer is None
    &&& !pull.verified
    &&& !pull.claimed
    &&& pull.revealed_amount == 0
    &&& pull.pull_id_bytes@ == spec_u64_to_le_bytes(params.pull_id)
    &&& pull.bump == bump
    &&& pull.equality_proof_account@ == Seq::new(32, |i: int| 0u8)
    &&& pull.ciphertext_validity_proof_account@ == Seq::new(32, |i: int| 0u8)
    &&& pull.range_proof_account@ == Seq::new(32, |i: int| 0u8)
    &&& pull.transfer_amount_auditor_ciphertext_lo@ == Seq::new(88, |i: int| 0u8)
    &&& pull.transfer_amount_auditor_ciphertext_hi@ == Seq::new(88, |i: int| 0u8)
    &&& pull.final_decryptable_available_balance@ == Seq::new(48, |i: int| 0u8)
}

/// What comes of a creation request: the failure, or the configuration to
/// invoke. The id is checked first.
pub open spec fn creation_ruling(
    game_config: GameConfig,
    accounts: CreatePull,
    params: CreatePullParams,
) -> Result<Instruction, GachaError> {
    if !game_config.accepts(params.pull_id) {
        Err(GachaError::InvalidPullId)
    } else {
        vault_ruling(accounts, params.decryptable_zero_balance_base64@)
    }
}

/// Creates a pull. The id must be the next in sequence. The pull is
/// committed to the encrypted amount as it is given, its escrow is planned
/// with `lamports` to fund it, and the counter advances to the id. Where it
/// fails, the configuration is as it was.
pub fn create_pull(
    accounts: &CreatePull,
    game_config: &mut GameConfig,
    params: &CreatePullParams,
    bump: u8,
    lamports: u64,
) -> (res: Result<(Pull, CreatePullPlan), Failure>)
    ensures
        match creation_ruling(*old(game_config), *accounts, *params) {
            Ok(instruction) => {
                &&& res matches Ok(created)
                &&& is_created_pull(created.0, *accounts, *params, bump)
                &&& creates_reward_vault(
                    created.1.allocate@,
                    created.1.configure@,
                    *accounts,
                    lamports,
                    instruction,
                )
                &&& closes_certificate(created.1.close, *accounts)
                &&& created.1.event == (PullCreated {
                    id: params.pull_id,
                    pull: accounts.pull,
                    encrypted_amount: params.encrypted_amount,
                })
                &&& *final(game_config) == old(game_config).advanced(params.pull_id)
            },
            Err(error) => {
                &&& res matches Err(failure)
                &&& failure@ == FailureKind::Gacha(error)
                &&& *final(game_config) == *old(game_config)
            },
        },
        res matches Ok(created) ==> created.0.wf(),
        old(game_config).wf() ==> final(game_config).wf(),
{
    if !game_config.is_next_pull_id(params.pull_id) {
        return Err(Failure::Gacha(GachaError::InvalidPullId));
    }
    let (allocate, configure) = match create_and_configure_reward_vault(
        accounts,
        lamports,
        &params.decryptable_zero_balance_base64,
    ) {
        Ok(plans) => plans,
        Err(failure) => return Err(failure),
    };
    let close = close_context_states(accounts);
    let pull = Pull {
        id: params.pull_id,
        reward_vault: accounts.reward_vault,
        encrypted_amount: params.encrypted_amount,
        buyer: None,
        verified: false,
        claimed: false,
        revealed_amount: 0,
        pull_id_bytes: pull_id_seed(params.pull_id),
        bump,
        equality_proof_account: Address::new([0u8; 32]),
        ciphertext_validity_proof_account: Address::new([0u8; 32]),
        range_proof_account: Address::new([0u8; 32]),
        transfer_amount_auditor_ciphertext_lo: [0u8; 88],
        transfer_amount_auditor_ciphertext_hi: [0u8; 88],
        final_decryptable_available_balance: [0u8; 48],
    };
    proof {
        assert(pull.equality_proof_account@ =~= Seq::new(32, |i: int| 0u8));
        assert(pull.ciphertext_validity_proof_account@ =~= Seq::new(32, |i: int| 0u8));
        assert(pull.range_proof_account@ =~= Seq::new(32, |i: int| 0u8));
        assert(pull.transfer_amount_auditor_ciphertext_lo@ =~= Seq::new(88, |i: int| 0u8));
        assert(pull.transfer_amount_auditor_ciphertext_hi@ =~= Seq::new(88, |i: int| 0u8));
        assert(pull.final_decryptable_available_balance@ =~= Seq::new(48, |i: int| 0u8));
    }
    game_config.last_pull_id = params.pull_id;
    let event = PullCreated {
        id: pull.id,
        pull: accounts.pull,
        encrypted_amount: pull.encrypted_amount,
    };
    Ok((pull, CreatePullPlan { allocate, configure, close, event }))
}

} // verus!
