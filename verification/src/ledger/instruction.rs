//! The instructions that the ledger's library builds for this protocol.
//!
//! An instruction is carried through as the library built it. What the rules
//! read of it is the list of accounts that it names.

use vstd::prelude::*;
use anchor_lang::solana_program::instruction::Instruction;
use anchor_lang::solana_program::program_error::ProgramError;
use anchor_lang::solana_program::system_instruction::create_account;
use spl_token_2022::extension::confidential_transfer::instruction::apply_pending_balance;
use spl_token_2022::extension::confidential_transfer::instruction::configure_account;
use spl_token_2022::extension::confidential_transfer::instruction::transfer;
use spl_token_2022::extension::confidential_transfer::instruction::withdraw;
use spl_token_2022::extension::ExtensionType;
use spl_token_2022::instruction::initialize_account3;
use spl_token_2022::solana_zk_sdk::zk_elgamal_proof_program::instruction::close_context_state;
use spl_token_2022::solana_zk_sdk::zk_elgamal_proof_program::instruction::ContextStateInfo;
use spl_token_2022::state::Account;
use spl_token_2022::ID;
use spl_token_confidential_transfer_proof_extraction::instruction::ProofLocation;
use crate::address::Address;

verus! {

/// An instruction of the ledger, opaque to the rules.
#[verifier::external_type_specification]
#[verifier::external_body]
pub struct ExInstruction(Instruction);

/// The identities of the accounts that an instruction names, in its order.
pub uninterp spec fn instruction_accounts(instruction: Instruction) -> Seq<Seq<u8>>;

/// The `accounts` of an `Instruction`, each by its `pubkey`: the identities
/// that the instruction names, in its order.
#[verifier::external_body]
pub(crate) fn account_keys(instruction: &Instruction) -> (keys: Vec<Address>)
    ensures
        keys@.len() == instruction_accounts(*instruction).len(),
        forall|i: int|
            0 <= i < keys@.len() ==> (#[trigger] keys@[i])@ == instruction_accounts(*instruction)[i],
{
    instruction.accounts.iter().map(|meta| Address { bytes: meta.pubkey.to_bytes() }).collect()
}

/// The instruction that `system_instruction::create_account` builds.
pub uninterp spec fn create_account_instruction(
    from: Seq<u8>,
    to: Seq<u8>,
    lamports: u64,
    space: u64,
    owner: Seq<u8>,
) -> Instruction;

/// `solana_program::system_instruction::create_account`: the instruction
/// that creates the account `to`, paid by `from`. It names `from` and `to`,
/// in this order.
#[verifier::external_body]
pub(crate) fn build_create_account(
    from: &Address,
    to: &Address,
    lamports: u64,
    space: u64,
    owner: &Address,
) -> (instruction: Instruction)
    ensures
        instruction == create_account_instruction(from@, to@, lamports, space, owner@),
        instruction_accounts(instruction) == seq![from@, to@],
{
    create_account(&from.bytes.into(), &to.bytes.into(), lamports, space, &owner.bytes.into())
}

/// The size of a token account with the confidential-transfer extension, as
/// `ExtensionType::try_calculate_account_len` computes it.
pub const CONFIDENTIAL_ACCOUNT_LEN: usize = 465;

/// `ExtensionType::try_calculate_account_len::<Account>` for the one
/// extension `ConfidentialTransferAccount`: the base account and its type
/// (166 bytes), the extension's header (4) and the extension (295).
#[verifier::external_body]
pub(crate) fn confidential_account_len() -> (res: Result<usize, ProgramError>)
    ensures
        res is Ok,
        res matches Ok(len) ==> len == CONFIDENTIAL_ACCOUNT_LEN,
{
    ExtensionType::try_calculate_account_len::<Account>(&[ExtensionType::ConfidentialTransferAccount])
}

/// The instruction that `initialize_account3` builds for the Token-2022
/// program.
pub uninterp spec fn initialize_account_instruction(
    account: Seq<u8>,
    mint: Seq<u8>,
    owner: Seq<u8>,
) -> Instruction;

/// `spl_token_2022::instruction::initialize_account3`, for the Token-2022
/// program itself, whose identity passes the builder's check: the
/// instruction that initialises `account` for `mint` with `owner`. It names
/// `account` and `mint`, in this order.
#[verifier::external_body]
pub(crate) fn build_initialize_account(account: &Address, mint: &Address, owner: &Address) -> (res:
    Result<Instruction, ProgramError>)
    ensures
        res is Ok,
        res matches Ok(instruction) ==> instruction == initialize_account_instruction(
            account@,
            mint@,
            owner@,
        ),
        res matches Ok(instruction) ==> instruction_accounts(instruction) == seq![account@, mint@],
{
    initialize_account3(&ID, &account.bytes.into(), &mint.bytes.into(), &owner.bytes.into())
}

/// The instruction that `configure_account` builds where the proof lies in a
/// context-state account.
pub uninterp spec fn configure_account_instruction(
    token_account: Seq<u8>,
    mint: Seq<u8>,
    decryptable_zero_balance: Seq<u8>,
    maximum_pending_balance_credit_counter: u64,
    authority: Seq<u8>,
    proof: Seq<u8>,
) -> Instruction;

/// `confidential_transfer::instruction::configure_account`, for the
/// Token-2022 program itself, one authority and a proof in a context-state
/// account: one instruction, which names the account, the mint, the proof
/// and the authority, in this order.
#[verifier::external_body]
pub(crate) fn build_configure_account(
    token_account: &Address,
    mint: &Address,
    decryptable_zero_balance: &[u8; 36],
    maximum_pending_balance_credit_counter: u64,
    authority: &Address,
    proof: &Address,
) -> (res: Result<Vec<Instruction>, ProgramError>)
    ensures
        res is Ok,
        res matches Ok(instructions) ==> instructions@ == seq![
            configure_account_instruction(
                token_account@,
                mint@,
                decryptable_zero_balance@,
                maximum_pending_balance_credit_counter,
                authority@,
                proof@,
            ),
        ],
        res matches Ok(instructions) ==> instruction_accounts(instructions@[0]) == seq![
            token_account@,
            mint@,
            proof@,
            authority@,
        ],
{
    configure_account(
        &ID,
        &token_account.bytes.into(),
        &mint.bytes.into(),
        &(*decryptable_zero_balance).into(),
        maximum_pending_balance_credit_counter,
        &authority.bytes.into(),
        &[],
        ProofLocation::ContextStateAccount(&proof.bytes.into()),
    )
}

/// The instruction that `apply_pending_balance` builds.
pub uninterp spec fn apply_pending_balance_instruction(
    token_account: Seq<u8>,
    expected_pending_balance_credit_counter: u64,
    new_decryptable_available_balance: Seq<u8>,
    authority: Seq<u8>,
) -> Instruction;

/// `confidential_transfer::instruction::apply_pending_balance`, for the
/// Token-2022 program itself and one authority: the instruction names the
/// account and the authority, in this order.
#[verifier::external_body]
pub(crate) fn build_apply_pending_balance(
    token_account: &Address,
    expected_pending_balance_credit_counter: u64,
    new_decryptable_available_balance: &[u8; 36],
    authority: &Address,
) -> (res: Result<Instruction, ProgramError>)
    ensures
        res is Ok,
        res matches Ok(instruction) ==> instruction == apply_pending_balance_instruction(
            token_account@,
            expected_pending_balance_credit_counter,
            new_decryptable_available_balance@,
            authority@,
        ),
        res matches Ok(instruction) ==> instruction_accounts(instruction) == seq![
            token_account@,
            authority@,
        ],
{
    apply_pending_balance(
        &ID,
        &token_account.bytes.into(),
        expected_pending_balance_credit_counter,
        &(*new_decryptable_available_balance).into(),
        &authority.bytes.into(),
        &[],
    )
}

/// The instruction that `withdraw` builds where both proofs lie in
/// context-state accounts.
pub uninterp spec fn withdraw_instruction(
    token_account: Seq<u8>,
    mint: Seq<u8>,
    amount: u64,
    decimals: u8,
    new_decryptable_available_balance: Seq<u8>,
    authority: Seq<u8>,
    equality_proof: Seq<u8>,
    range_proof: Seq<u8>,
) -> Instruction;

/// `confidential_transfer::instruction::withdraw`, for the Token-2022
/// program itself, one authority and proofs in context-state accounts: one
/// instruction, which names the account, the mint, the equality proof, the
/// range proof and the authority, in this order.
#[verifier::external_body]
pub(crate) fn build_withdraw(
    token_account: &Address,
    mint: &Address,
    amount: u64,
    decimals: u8,
    new_decryptable_available_balance: &[u8; 36],
    authority: &Address,
    equality_proof: &Address,
    range_proof: &Address,
) -> (res: Result<Vec<Instruction>, ProgramError>)
    ensures
        res is Ok,
        res matches Ok(instructions) ==> instructions@ == seq![
            withdraw_instruction(
                token_account@,
                mint@,
                amount,
                decimals,
                new_decryptable_available_balance@,
                authority@,
                equality_proof@,
                range_proof@,
            ),
        ],
        res matches Ok(instructions) ==> instruction_accounts(instructions@[0]) == seq![
            token_account@,
            mint@,
            equality_proof@,
            range_proof@,
            authority@,
        ],
{
    withdraw(
        &ID,
        &token_account.bytes.into(),
        &mint.bytes.into(),
        amount,
        decimals,
        &(*new_decryptable_available_balance).into(),
        &authority.bytes.into(),
        &[],
        ProofLocation::ContextStateAccount(&equality_proof.bytes.into()),
        ProofLocation::ContextStateAccount(&range_proof.bytes.into()),
    )
}

/// The instruction that `transfer` builds where the three proofs lie in
/// context-state accounts.
pub uninterp spec fn transfer_instruction(
    source: Seq<u8>,
    mint: Seq<u8>,
    destination: Seq<u8>,
    new_source_decryptable_available_balance: Seq<u8>,
    transfer_amount_auditor_ciphertext_lo: Seq<u8>,
    transfer_amount_auditor_ciphertext_hi: Seq<u8>,
    authority: Seq<u8>,
    equality_proof: Seq<u8>,
    ciphertext_validity_proof: Seq<u8>,
    range_proof: Seq<u8>,
) -> Instruction;

/// `confidential_transfer::instruction::transfer`, for the Token-2022
/// program itself, one authority and proofs in context-state accounts: one
/// instruction, which names the source, the mint, the destination, the
/// equality proof, the validity proof, the range proof and the authority, in
/// this order.
#[verifier::external_body]
pub(crate) fn build_transfer(
    source: &Address,
    mint: &Address,
    destination: &Address,
    new_source_decryptable_available_balance: &[u8; 36],
    transfer_amount_auditor_ciphertext_lo: &[u8; 64],
    transfer_amount_auditor_ciphertext_hi: &[u8; 64],
    authority: &Address,
    equality_proof: &Address,
    ciphertext_validity_proof: &Address,
    range_proof: &Address,
) -> (res: Result<Vec<Instruction>, ProgramError>)
    ensures
        res is Ok,
        res matches Ok(instructions) ==> instructions@ == seq![
            transfer_instruction(
                source@,
                mint@,
                destination@,
                new_source_decryptable_available_balance@,
                transfer_amount_auditor_ciphertext_lo@,
                transfer_amount_auditor_ciphertext_hi@,
                authority@,
                equality_proof@,
                ciphertext_validity_proof@,
                range_proof@,
            ),
        ],
        res matches Ok(instructions) ==> instruction_accounts(instructions@[0]) == seq![
            source@,
            mint@,
            destination@,
            equality_proof@,
            ciphertext_validity_proof@,
            range_proof@,
            authority@,
        ],
{
    transfer(
        &ID,
        &source.bytes.into(),
        &mint.bytes.into(),
        &destination.bytes.into(),
        &(*new_source_decryptable_available_balance).into(),
        &(*transfer_amount_auditor_ciphertext_lo).into(),
        &(*transfer_amount_auditor_ciphertext_hi).into(),
        &authority.bytes.into(),
        &[],
        ProofLocation::ContextStateAccount(&equality_proof.bytes.into()),
        ProofLocation::ContextStateAccount(&ciphertext_validity_proof.bytes.into()),
        ProofLocation::ContextStateAccount(&range_proof.bytes.into()),
    )
}

/// The instruction that `close_context_state` builds.
pub uninterp spec fn close_context_state_instruction(
    context_state_account: Seq<u8>,
    context_state_authority: Seq<u8>,
    destination: Seq<u8>,
) -> Instruction;

/// `zk_elgamal_proof_program::instruction::close_context_state`: the
/// instruction that closes a certificate and sends what it held to
/// `destination`. It names the certificate, the destination and the
/// authority, in this order.
#[verifier::external_body]
pub(crate) fn build_close_context_state(
    context_state_account: &Address,
    context_state_authority: &Address,
    destination: &Address,
) -> (instruction: Instruction)
    ensures
        instruction == close_context_state_instruction(
            context_state_account@,
            context_state_authority@,
            destination@,
        ),
        instruction_accounts(instruction) == seq![
            context_state_account@,
            destination@,
            context_state_authority@,
        ],
{
    close_context_state(
        ContextStateInfo {
            context_state_account: &context_state_account.bytes.into(),
            context_state_authority: &context_state_authority.bytes.into(),
        },
        &destination.bytes.into(),
    )
}

} // verus!
