//! The reveal by confidential transfer: the reward moves from the escrow to
//! the buyer's confidential account.

use vstd::prelude::*;
use anchor_lang::solana_program::instruction::Instruction;
use crate::address::Address;
use crate::error::{Failure, FailureKind, GachaError};
use crate::event::PullClaimed;
use crate::invocation::{
    all_resolvable, plan_resolves, resolve_instructions, AccountRole, Invocation, KnownAccount,
    SigningAuthority,
};
use crate::ledger::ciphertext::{
    decode_decryptable_balance, decode_encrypted_balance, decryptable_balance_of,
    encrypted_balance_of,
};
use crate::ledger::instruction::{build_transfer, instruction_accounts, transfer_instruction};
use crate::state::Pull;

verus! {

/// The accounts of a reveal by confidential transfer.
#[derive(Debug, Clone, Copy, PartialEq, Eq)]
pub struct ClaimPull {
    pub pull: Address,
    pub game_config: Address,
    pub buyer: Address,
    pub reward_vault: Address,
    pub buyer_reward_account: Address,
    pub reward_mint: Address,
    pub equality_proof_account: Address,
    pub ciphertext_validity_proof_account: Address,
    pub range_proof_account: Address,
    pub zk_elgamal_proof_program: Address,
    pub token_program: Address,
}

impl ClaimPull {
    /// The accounts that the ledger's sub-operations may name.
    pub open spec fn spec_known_accounts(&self) -> Seq<KnownAccount> {
        seq![
            KnownAccount { address: self.reward_vault, role: AccountRole::RewardVault },
            KnownAccount { address: self.reward_mint, role: AccountRole::RewardMint },
            KnownAccount { address: self.buyer_reward_account, role: AccountRole::BuyerRewardAccount },
            KnownAccount { address: self.equality_proof_account, role: AccountRole::EqualityProofAccount },
            KnownAccount {
                address: self.ciphertext_validity_proof_account,
                role: AccountRole::CiphertextValidityProofAccount,
            },
            KnownAccount { address: self.range_proof_account, role: AccountRole::RangeProofAccount },
            KnownAccount { address: self.zk_elgamal_proof_program, role: AccountRole::ZkElgamalProofProgram },
            KnownAccount { address: self.pull, role: AccountRole::Pull },
        ]
    }

    /// The table of the accounts that the ledger's sub-operations may name.
    pub fn known_accounts(&self) -> (table: Vec<KnownAccount>)
        ensures
            table@ == self.spec_known_accounts(),
    {
        let mut table: Vec<KnownAccount> = Vec::new();
        table.push(KnownAccount { address: self.reward_vault, role: AccountRole::RewardVault });
        table.push(KnownAccount { address: self.reward_mint, role: AccountRole::RewardMint });
        table.push(
            KnownAccount { address: self.buyer_reward_account, role: AccountRole::BuyerRewardAccount },
        );
        table.push(
            KnownAccount { address: self.equality_proof_account, role: AccountRole::EqualityProofAccount },
        );
        table.push(
            KnownAccount {
                address: self.ciphertext_validity_proof_account,
                role: AccountRole::CiphertextValidityProofAccount,
            },
        );
        table.push(
            KnownAccount { address: self.range_proof_account, role: AccountRole::RangeProofAccount },
        );
        table.push(
            KnownAccount { address: self.zk_elgamal_proof_program, role: AccountRole::ZkElgamalProofProgram },
        );
        table.push(KnownAccount { address: self.pull, role: AccountRole::Pull });
        assert(table@ =~= self.spec_known_accounts());
        table
    }
}

/// The confidential transfer that moves the reward of `pull` to the buyer:
/// from the escrow to the buyer's account, under the pull's authority, with
/// the snapshot, the auditor's ciphertexts and the certificates that the pull
/// has on record. The fields on record are decoded in this order: the
/// snapshot, the low half, the high half.
pub open spec fn reward_transfer_instruction(accounts: ClaimPull, pull: Pull) -> Result<
    Instruction,
    GachaError,
> {
    match decryptable_balance_of(pull.final_decryptable_available_balance@) {
        None => Err(GachaError::DecryptableBalanceConversionFailed),
        Some(balance) => match encrypted_balance_of(pull.transfer_amount_auditor_ciphertext_lo@) {
            None => Err(GachaError::CipherTextBalanceConversionFailed),
            Some(lo) => match encrypted_balance_of(pull.transfer_amount_auditor_ciphertext_hi@) {
                None => Err(GachaError::CipherTextBalanceConversionFailed),
                Some(hi) => Ok(
                    transfer_instruction(
                        accounts.reward_vault@,
                        accounts.reward_mint@,
                        accounts.buyer_reward_account@,
                        balance,
                        lo,
                        hi,
                        accounts.pull@,
                        pull.equality_proof_account@,
                        pull.ciphertext_validity_proof_account@,
                        pull.range_proof_account@,
                    ),
                ),
            },
        },
    }
}

/// The accounts that the confidential transfer names.
pub open spec fn reward_transfer_accounts(accounts: ClaimPull, pull: Pull) -> Seq<Seq<u8>> {
    seq![
        accounts.reward_vault@,
        accounts.reward_mint@,
        accounts.buyer_reward_account@,
        pull.equality_proof_account@,
        pull.ciphertext_validity_proof_account@,
        pull.range_proof_account@,
        accounts.pull@,
    ]
}

/// What comes of planning the confidential transfer: the failure, or the
/// instruction to invoke.
pub open spec fn reward_transfer_ruling(accounts: ClaimPull, pull: Pull) -> Result<
    Instruction,
    FailureKind,
> {
    match reward_transfer_instruction(accounts, pull) {
        Err(error) => Err(FailureKind::Gacha(error)),
        Ok(instruction) => if all_resolvable(accounts.spec_known_accounts(), seq![instruction]) {
            Ok(instruction)
        } else {
            Err(FailureKind::Gacha(GachaError::InvalidAccount))
        },
    }
}

/// Plans the confidential transfer of the reward: decodes what the pull has
/// on record, has the ledger's library build the transfer, and resolves
/// every account that it names against the accounts of the request. The
/// transfer is signed in the pull's name.
pub fn transfer_reward(accounts: &ClaimPull, pull: &Pull) -> (res: Result<Vec<Invocation>, Failure>)
    ensures
        match reward_transfer_ruling(*accounts, *pull) {
            Ok(instruction) => {
                &&& res matches Ok(plan)
                &&& plan_resolves(
                    plan@,
                    accounts.spec_known_accounts(),
                    seq![instruction],
                    SigningAuthority::Pull,
                    None,
                )
            },
            Err(kind) => res matches Err(failure) && failure@ == kind,
        },
        reward_transfer_instruction(*accounts, *pull) matches Ok(instruction) ==> instruction_accounts(
            instruction,
        ) == reward_transfer_accounts(*accounts, *pull),
{
    let balance = match decode_decryptable_balance(&pull.final_decryptable_available_balance) {
        Ok(balance) => balance,
        Err(error) => return Err(Failure::Gacha(error)),
    };
    let lo = match decode_encrypted_balance(&pull.transfer_amount_auditor_ciphertext_lo) {
        Ok(lo) => lo,
        Err(error) => return Err(Failure::Gacha(error)),
    };
    let hi = match decode_encrypted_balance(&pull.transfer_amount_auditor_ciphertext_hi) {
        Ok(hi) => hi,
        Err(error) => return Err(Failure::Gacha(error)),
    };
    let instructions = match build_transfer(
        &accounts.reward_vault,
        &accounts.reward_mint,
        &accounts.buyer_reward_account,
        &balance,
        &lo,
        &hi,
        &accounts.pull,
        &pull.equality_proof_account,
        &pull.ciphertext_validity_proof_account,
        &pull.range_proof_account,
    ) {
        Ok(instructions) => instructions,
        Err(error) => return Err(Failure::Program(error)),
    };
    assert(instructions@ =~= seq![reward_transfer_instruction(*accounts, *pull)->Ok_0]);
    assert(instruction_accounts(instructions@[0]) =~= reward_transfer_accounts(*accounts, *pull));
    let table = accounts.known_accounts();
    match resolve_instructions(&table, instructions, SigningAuthority::Pull, None) {
        Ok(plan) => Ok(plan),
        Err(error) => Err(Failure::Gacha(error)),
    }
}

/// The pull after a reveal of `amount`.
pub open spec fn claimed_pull(pull: Pull, amount: u64) -> Pull {
    Pull { revealed_amount: amount, claimed: true, ..pull }
}

/// What a reveal by confidential transfer asks of the ledger, and what it
/// announces.
#[derive(Debug)]
pub struct ClaimPullPlan {
    /// The confidential transfer of the reward.
    pub transfer: Vec<Invocation>,
    pub event: PullClaimed,
}

/// What comes of a reveal by confidential transfer: the failure, or the
/// instruction to invoke.
pub open spec fn claim_ruling(accounts: ClaimPull, pull: Pull) -> Result<Instruction, FailureKind> {
    match pull.reveal_guard(accounts.buyer) {
        Err(error) => Err(FailureKind::Gacha(error)),
        Ok(()) => reward_transfer_ruling(accounts, pull),
    }
}

/// Reveals a pull to its buyer by confidential transfer. It asks that the
/// party be the buyer and that the pull be unclaimed; it then plans the
/// transfer and puts the amount on record. Where it fails, the pull is as it
/// was.
pub fn claim_pull(accounts: &ClaimPull, pull: &mut Pull, amount: u64) -> (res: Result<
    ClaimPullPlan,
    Failure,
>)
    ensures
        match claim_ruling(*accounts, *old(pull)) {
            Ok(instruction) => {
                &&& res matches Ok(plan)
                &&& plan_resolves(
                    plan.transfer@,
                    accounts.spec_known_accounts(),
                    seq![instruction],
                    SigningAuthority::Pull,
                    None,
                )
                &&& plan.event == (PullClaimed {
                    id: old(pull).id,
                    pull: accounts.pull,
                    buyer: accounts.buyer,
                })
                &&& *final(pull) == claimed_pull(*old(pull), amount)
            },
            Err(kind) => {
                &&& res matches Err(failure)
                &&& failure@ == kind
                &&& *final(pull) == *old(pull)
            },
        },
        old(pull).wf() ==> final(pull).wf(),
{
    match pull.check_reveal(&accounts.buyer) {
        Ok(()) => {},
        Err(error) => return Err(Failure::Gacha(error)),
    }
    let transfer = match transfer_reward(accounts, pull) {
        Ok(transfer) => transfer,
        Err(failure) => return Err(failure),
    };
    pull.revealed_amount = amount;
    pull.claimed = true;
    Ok(
        ClaimPullPlan {
            transfer,
            event: PullClaimed { id: pull.id, pull: accounts.pull, buyer: accounts.buyer },
        },
    )
}

} // verus!
