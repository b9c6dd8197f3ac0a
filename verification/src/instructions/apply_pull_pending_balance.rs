//! Applying the escrow's pending balance, so that what was paid in becomes
//! available.

use vstd::prelude::*;
use anchor_lang::solana_program::instruction::Instruction;
use crate::address::Address;
use crate::error::{Failure, FailureKind, GachaError};
use crate::event::PendingBalanceApplied;
use crate::invocation::{AccountRole, Invocation, SigningAuthority};
use crate::ledger::account::{confidential_account_of, read_confidential_account};
use crate::ledger::ciphertext::{decode_decryptable_balance, decryptable_balance_of};
use crate::ledger::instruction::{apply_pending_balance_instruction, build_apply_pending_balance};
use crate::state::{ApplyPullPendingBalanceParams, Pull};

verus! {

/// The accounts of a request to apply the pending balance.
#[derive(Debug, Clone, Copy, PartialEq, Eq)]
pub struct ApplyPullPendingBalance {
    pub game_config: Address,
    pub pull: Address,
    pub reward_vault: Address,
    pub authority: Address,
    pub token_program: Address,
}

/// The instruction that applies the escrow's pending balance. The counter of
/// credits that it expects is the one that the escrow's record holds now, so
/// that the ledger refuses it where a deposit has come in between. The
/// escrow's record is read first, the snapshot decoded second.
pub open spec fn pending_balance_instruction(
    accounts: ApplyPullPendingBalance,
    vault_data: Seq<u8>,
    new_decryptable_available_balance: Seq<u8>,
) -> Result<Instruction, FailureKind> {
    match confidential_account_of(vault_data) {
        None => Err(FailureKind::Program),
        Some(vault) => match decryptable_balance_of(new_decryptable_available_balance) {
            None => Err(FailureKind::Gacha(GachaError::DecryptableBalanceConversionFailed)),
            Some(balance) => Ok(
                apply_pending_balance_instruction(
                    accounts.reward_vault@,
                    vault.pending_balance_credit_counter,
                    balance,
                    accounts.pull@,
                ),
            ),
        },
    }
}

/// Whether an invocation is `instruction`, handed the escrow and the pull,
/// and signed in the pull's name.
pub open spec fn applies_pending_balance(invocation: Invocation, instruction: Instruction) -> bool {
    &&& invocation.instruction == instruction
    &&& invocation.accounts@ == seq![AccountRole::RewardVault, AccountRole::Pull]
    &&& invocation.authority == SigningAuthority::Pull
    &&& invocation.on_failure == None::<GachaError>
}

/// Plans the application of the escrow's pending balance: reads the counter
/// of credits from the escrow's record, decodes the snapshot, and has the
/// ledger's library build the instruction with that counter as the one it
/// expects.
pub fn apply_pending_balance(
    accounts: &ApplyPullPendingBalance,
    vault_data: &[u8],
    new_decryptable_available_balance: &[u8; 48],
) -> (res: Result<Invocation, Failure>)
    ensures
        match pending_balance_instruction(
            *accounts,
            vault_data@,
            new_decryptable_available_balance@,
        ) {
            Ok(instruction) => res matches Ok(invocation) && applies_pending_balance(
                invocation,
                instruction,
            ),
            Err(kind) => res matches Err(failure) && failure@ == kind,
        },
{
    let expected_pending_credit_counter = match read_confidential_account(vault_data) {
        Ok(vault) => vault.pending_balance_credit_counter,
        Err(error) => return Err(Failure::Program(error)),
    };
    let balance = match decode_decryptable_balance(new_decryptable_available_balance) {
        Ok(balance) => balance,
        Err(error) => return Err(Failure::Gacha(error)),
    };
    let instruction = match build_apply_pending_balance(
        &accounts.reward_vault,
        expected_pending_credit_counter,
        &balance,
        &accounts.pull,
    ) {
        Ok(instruction) => instruction,
        Err(error) => return Err(Failure::Program(error)),
    };
    let mut roles: Vec<AccountRole> = Vec::new();
    roles.push(AccountRole::RewardVault);
    roles.push(AccountRole::Pull);
    assert(roles@ =~= seq![AccountRole::RewardVault, AccountRole::Pull]);
    Ok(
        Invocation {
            instruction,
            accounts: roles,
            authority: SigningAuthority::Pull,
            on_failure: None,
        },
    )
}

/// What a request to apply the pending balance asks of the ledger, and what
/// it announces.
#[derive(Debug)]
pub struct ApplyPullPendingBalancePlan {
    pub apply: Invocation,
    pub event: PendingBalanceApplied,
}

/// Applies the pending balance of a pull's escrow. Nothing of the pull
/// changes.
pub fn apply_pull_pending_balance(
    accounts: &ApplyPullPendingBalance,
    pull: &Pull,
    params: &ApplyPullPendingBalanceParams,
    vault_data: &[u8],
) -> (res: Result<ApplyPullPendingBalancePlan, Failure>)
    ensures
        match pending_balance_instruction(
            *accounts,
            vault_data@,
            params.new_decryptable_available_balance@,
        ) {
            Ok(instruction) => {
                &&& res matches Ok(plan)
                &&& applies_pending_balance(plan.apply, instruction)
                &&& plan.event == (PendingBalanceApplied { id: pull.id, pull: accounts.pull })
            },
            Err(kind) => res matches Err(failure) && failure@ == kind,
        },
{
    let apply = match apply_pending_balance(
        accounts,
        vault_data,
        &params.new_decryptable_available_balance,
    ) {
        Ok(apply) => apply,
        Err(failure) => return Err(failure),
    };
    Ok(
        ApplyPullPendingBalancePlan {
            apply,
            event: PendingBalanceApplied { id: pull.id, pull: accounts.pull },
        },
    )
}

} // verus!
