//! The reveal by withdrawal: the reward leaves the escrow's confidential
//! balance and is handed to the buyer in the open.

use vstd::prelude::*;
use anchor_lang::solana_program::instruction::Instruction;
use crate::address::Address;
use crate::error::{Failure, FailureKind, GachaError};
use crate::event::PullClaimed;
use crate::invocation::{
    all_resolvable, lemma_resolve_known, plan_resolves, resolve, resolve_all,
    resolve_instructions, AccountRole, Invocation, KnownAccount, SigningAuthority,
};
use crate::ledger::ciphertext::{decode_decryptable_balance, decryptable_balance_of};
use crate::ledger::instruction::{build_withdraw, instruction_accounts, withdraw_instruction};
use crate::state::{OpenPullParams, Pull};

verus! {

/// The accounts of a reveal by withdrawal.
#[derive(Debug, Clone, Copy, PartialEq, Eq)]
pub struct OpenPull {
    pub pull: Address,
    pub game_config: Address,
    pub buyer: Address,
    pub reward_vault: Address,
    pub buyer_reward_account: Address,
    pub reward_mint: Address,
    pub equality_proof_account: Address,
    pub range_proof_account: Address,
    pub authority: Address,
    pub zk_elgamal_proof_program: Address,
    pub token_program: Address,
    pub token_2022_program: Address,
}

/// A transfer of reward asset in the open, signed in the pull's name.
#[derive(Debug, Clone, Copy, PartialEq, Eq)]
pub struct RewardTransfer {
    pub from: Address,
    pub to: Address,
    /// The pull record, which owns the escrow.
    pub authority: Address,
    pub mint: Address,
    pub amount: u64,
    pub decimals: u8,
}

impl OpenPull {
    /// The accounts that the ledger's sub-operations may name.
    pub open spec fn spec_known_accounts(&self) -> Seq<KnownAccount> {
        seq![
            KnownAccount { address: self.reward_vault, role: AccountRole::RewardVault },
            KnownAccount { address: self.reward_mint, role: AccountRole::RewardMint },
            KnownAccount { address: self.buyer_reward_account, role: AccountRole::BuyerRewardAccount },
            KnownAccount { address: self.equality_proof_account, role: AccountRole::EqualityProofAccount },
            KnownAccount { address: self.range_proof_account, role: AccountRole::RangeProofAccount },
            KnownAccount { address: self.zk_elgamal_proof_program, role: AccountRole::ZkElgamalProofProgram },
            KnownAccount { address: self.pull, role: AccountRole::Pull },
        ]
    }

    /// The table of the accounts that the ledger's sub-operations may name.
    pub fn known_accounts(&self) -> (table: Vec<KnownAccount>)
        ensures
            table@ == self.spec_known_accounts(),
    {
        let mut table: Vec<KnownAccount> = Vec::new();
        table.push(KnownAccount { address: self.reward_vault, role: AccountRole::RewardVault });
        table.push(KnownAccount { address: self.reward_mint, role: AccountRole::RewardMint });
        table.push(
            KnownAccount { address: self.buyer_reward_account, role: AccountRole::BuyerRewardAccount },
        );
        table.push(
            KnownAccount { address: self.equality_proof_account, role: AccountRole::EqualityProofAccount },
        );
        table.push(
            KnownAccount { address: self.range_proof_account, role: AccountRole::RangeProofAccount },
        );
        table.push(
            KnownAccount { address: self.zk_elgamal_proof_program, role: AccountRole::ZkElgamalProofProgram },
        );
        table.push(KnownAccount { address: self.pull, role: AccountRole::Pull });
        assert(table@ =~= self.spec_known_accounts());
        table
    }

    /// The transfer in the open that hands the revealed amount to the buyer.
    pub fn transfer_reward(&self, amount: u64, decimals: u8) -> (transfer: RewardTransfer)
        ensures
            transfer == (RewardTransfer {
                from: self.reward_vault,
                to: self.buyer_reward_account,
                authority: self.pull,
                mint: self.reward_mint,
                amount,
                decimals,
            }),
    {
        RewardTransfer {
            from: self.reward_vault,
            to: self.buyer_reward_account,
            authority: self.pull,
            mint: self.reward_mint,
            amount,
            decimals,
        }
    }
}

/// The accounts that the withdrawal names.
pub open spec fn withdrawal_accounts(accounts: OpenPull) -> Seq<Seq<u8>> {
    seq![
        accounts.reward_vault@,
        accounts.reward_mint@,
        accounts.equality_proof_account@,
        accounts.range_proof_account@,
        accounts.pull@,
    ]
}

/// The withdrawal of `amount` from the escrow's confidential balance, under
/// the pull's authority, with the given snapshot and the request's
/// certificates; the failure where the snapshot does not decode.
pub open spec fn withdrawal_instruction(
    accounts: OpenPull,
    amount: u64,
    decimals: u8,
    new_decryptable_available_balance: Seq<u8>,
) -> Result<Instruction, GachaError> {
    match decryptable_balance_of(new_decryptable_available_balance) {
        None => Err(GachaError::DecryptableBalanceConversionFailed),
        Some(balance) => Ok(
            withdraw_instruction(
                accounts.reward_vault@,
                accounts.reward_mint@,
                amount,
                decimals,
                balance,
                accounts.pull@,
                accounts.equality_proof_account@,
                accounts.range_proof_account@,
            ),
        ),
    }
}

/// The request knows every account that the withdrawal names.
pub proof fn lemma_withdrawal_accounts_known(accounts: OpenPull)
    ensures
        resolve_all(accounts.spec_known_accounts(), withdrawal_accounts(accounts)) is Some,
{
    let table = accounts.spec_known_accounts();
    let keys = withdrawal_accounts(accounts);
    assert forall|i: int| 0 <= i < keys.len() implies resolve(table, #[trigger] keys[i]) is Some by {
        if i == 0 {
            lemma_resolve_known(table, 0);
        } else if i == 1 {
            lemma_resolve_known(table, 1);
        } else if i == 2 {
            lemma_resolve_known(table, 3);
        } else if i == 3 {
            lemma_resolve_known(table, 4);
        } else {
            lemma_resolve_known(table, 6);
        }
    }
}

/// Plans the withdrawal of the reward from the escrow's confidential
/// balance: decodes the snapshot, has the ledger's library build the
/// withdrawal, and resolves every account that it names against the accounts
/// of the request. The withdrawal is signed in the pull's name.
pub fn withdraw_reward(
    accounts: &OpenPull,
    amount: u64,
    decimals: u8,
    new_decryptable_available_balance: &[u8; 48],
) -> (res: Result<Vec<Invocation>, Failure>)
    ensures
        match withdrawal_instruction(*accounts, amount, decimals, new_decryptable_available_balance@) {
            Ok(instruction) => {
                &&& res matches Ok(plan)
                &&& plan_resolves(
                    plan@,
                    accounts.spec_known_accounts(),
                    seq![instruction],
                    SigningAuthority::Pull,
                    None,
                )
                &&& instruction_accounts(instruction) == withdrawal_accounts(*accounts)
            },
            Err(error) => res matches Err(failure) && failure@ == FailureKind::Gacha(error),
        },
{
    let balance = match decode_decryptable_balance(new_decryptable_available_balance) {
        Ok(balance) => balance,
        Err(error) => return Err(Failure::Gacha(error)),
    };
    let instructions = match build_withdraw(
        &accounts.reward_vault,
        &accounts.reward_mint,
        amount,
        decimals,
        &balance,
        &accounts.pull,
        &accounts.equality_proof_account,
        &accounts.range_proof_account,
    ) {
        Ok(instructions) => instructions,
        Err(error) => return Err(Failure::Program(error)),
    };
    proof {
        assert(instruction_accounts(instructions@[0]) =~= withdrawal_accounts(*accounts));
        lemma_withdrawal_accounts_known(*accounts);
        assert(all_resolvable(accounts.spec_known_accounts(), instructions@));
    }
    let table = accounts.known_accounts();
    match resolve_instructions(&table, instructions, SigningAuthority::Pull, None) {
        Ok(plan) => Ok(plan),
        Err(error) => Err(Failure::Gacha(error)),
    }
}

/// The pull after a reveal by withdrawal: claimed, with the amount and the
/// certificates of the reveal on record.
pub open spec fn opened_pull(pull: Pull, accounts: OpenPull, amount: u64) -> Pull {
    Pull {
        revealed_amount: amount,
        claimed: true,
        equality_proof_account: accounts.equality_proof_account,
        range_proof_account: accounts.range_proof_account,
        ..pull
    }
}

/// What a reveal by withdrawal asks of the ledger, in this order, and what
/// it announces.
#[derive(Debug)]
pub struct OpenPullPlan {
    /// The withdrawal from the escrow's confidential balance.
    pub withdraw: Vec<Invocation>,
    /// The transfer of the withdrawn amount to the buyer.
    pub transfer: RewardTransfer,
    pub event: PullClaimed,
}

/// What comes of a reveal by withdrawal: the failure, or the instruction to
/// invoke.
pub open spec fn open_ruling(accounts: OpenPull, pull: Pull, params: OpenPullParams) -> Result<
    Instruction,
    GachaError,
> {
    match pull.reveal_guard(accounts.buyer) {
        Err(error) => Err(error),
        Ok(()) => withdrawal_instruction(
            accounts,
            params.amount,
            params.decimals,
            params.new_decryptable_available_balance@,
        ),
    }
}

/// Reveals a pull to its buyer by withdrawal. It asks that the party be the
/// buyer and that the pull be unclaimed; it then plans the withdrawal of the
/// amount and its transfer to the buyer, and puts the amount on record.
/// Where it fails, the pull is as it was.
pub fn open_pull(accounts: &OpenPull, pull: &mut Pull, params: &OpenPullParams) -> (res: Result<
    OpenPullPlan,
    Failure,
>)
    ensures
        match open_ruling(*accounts, *old(pull), *params) {
            Ok(instruction) => {
                &&& res matches Ok(plan)
                &&& plan_resolves(
                    plan.withdraw@,
                    accounts.spec_known_accounts(),
                    seq![instruction],
                    SigningAuthority::Pull,
                    None,
                )
                &&& plan.transfer == (RewardTransfer {
                    from: accounts.reward_vault,
                    to: accounts.buyer_reward_account,
                    authority: accounts.pull,
                    mint: accounts.reward_mint,
                    amount: params.amount,
                    decimals: params.decimals,
                })
                &&& plan.event == (PullClaimed {
                    id: old(pull).id,
                    pull: accounts.pull,
                    buyer: accounts.buyer,
                })
                &&& *final(pull) == opened_pull(*old(pull), *accounts, params.amount)
            },
            Err(error) => {
                &&& res matches Err(failure)
                &&& failure@ == FailureKind::Gacha(error)
                &&& *final(pull) == *old(pull)
            },
        },
        old(pull).wf() ==> final(pull).wf(),
{
    match pull.check_reveal(&accounts.buyer) {
        Ok(()) => {},
        Err(error) => return Err(Failure::Gacha(error)),
    }
    let withdraw = match withdraw_reward(
        accounts,
        params.amount,
        params.decimals,
        &params.new_decryptable_available_balance,
    ) {
        Ok(withdraw) => withdraw,
        Err(failure) => return Err(failure),
    };
    let transfer = accounts.transfer_reward(params.amount, params.decimals);
    pull.revealed_amount = params.amount;
    pull.claimed = true;
    pull.equality_proof_account = accounts.equality_proof_account;
    pull.range_proof_account = accounts.range_proof_account;
    Ok(
        OpenPullPlan {
            withdraw,
            transfer,
            event: PullClaimed { id: pull.id, pull: accounts.pull, buyer: accounts.buyer },
        },
    )
}

} // verus!
