//! Calls into the ledger, and the accounts that they may act on.
//!
//! A request knows a small table of accounts. Every identity that an
//! instruction names must be found in that table before the instruction may
//! be invoked: an identity that is not in it fails the whole request.

use vstd::prelude::*;
use anchor_lang::solana_program::instruction::Instruction;
use anchor_lang::solana_program::program_error::ProgramError;
use crate::address::Address;
use crate::error::{Failure, FailureKind, GachaError};
use crate::ledger::instruction::{account_keys, instruction_accounts};

verus! {

/// The part that an account plays in a request.
#[derive(Debug, Clone, Copy, PartialEq, Eq, Structural)]
pub enum AccountRole {
    Payer,
    Pull,
    RewardVault,
    RewardMint,
    BuyerRewardAccount,
    PubkeyValidityProofData,
    EqualityProofAccount,
    CiphertextValidityProofAccount,
    RangeProofAccount,
    ZkElgamalProofProgram,
    SystemProgram,
    Rent,
}

/// An account that a request knows, under its identity.
#[derive(Debug, Clone, Copy, PartialEq, Eq)]
pub struct KnownAccount {
    pub address: Address,
    pub role: AccountRole,
}

/// In whose name the program signs a call. The authority is derived from
/// seeds that only the program can sign for; no key stands behind it.
#[derive(Debug, Clone, Copy, PartialEq, Eq, Structural)]
pub enum SigningAuthority {
    /// Nobody: the call goes out with the signatures of the request.
    Request,
    /// The pull record, which owns its escrow.
    Pull,
    /// The escrow's own address, at its creation.
    RewardVault,
}

/// One call into the ledger: the instruction, the accounts to hand over with
/// it, the authority that signs it, and the signal to raise where the ledger
/// refuses it (none: the ledger's own error is handed on).
#[derive(Debug)]
pub struct Invocation {
    pub instruction: Instruction,
    pub accounts: Vec<AccountRole>,
    pub authority: SigningAuthority,
    pub on_failure: Option<GachaError>,
}

impl Invocation {
    /// What the request reports once the ledger has answered this call:
    /// nothing where the ledger accepted it; where it refused, the signal
    /// that the call carries, or else the ledger's own error.
    pub open spec fn spec_settle(&self, refused: bool) -> Result<(), FailureKind> {
        if !refused {
            Ok(())
        } else {
            match self.on_failure {
                Some(signal) => Err(FailureKind::Gacha(signal)),
                None => Err(FailureKind::Program),
            }
        }
    }

    /// Settles the ledger's answer to this call.
    pub fn settle(&self, outcome: Result<(), ProgramError>) -> (res: Result<(), Failure>)
        ensures
            match self.spec_settle(outcome is Err) {
                Ok(()) => res is Ok,
                Err(kind) => res matches Err(failure) && failure@ == kind,
            },
    {
        match outcome {
            Ok(()) => Ok(()),
            Err(error) => match self.on_failure {
                Some(signal) => Err(Failure::Gacha(signal)),
                None => Err(Failure::Program(error)),
            },
        }
    }
}

/// The role under which a table knows an identity: that of the first entry
/// with this identity, or none.
pub open spec fn resolve(table: Seq<KnownAccount>, key: Seq<u8>) -> Option<AccountRole>
    decreases table.len(),
{
    if table.len() == 0 {
        None
    } else if table[0].address@ == key {
        Some(table[0].role)
    } else {
        resolve(table.drop_first(), key)
    }
}

/// The roles of a list of identities, where the table knows every one of
/// them; none where it does not know one.
pub open spec fn resolve_all(table: Seq<KnownAccount>, keys: Seq<Seq<u8>>) -> Option<
    Seq<AccountRole>,
> {
    if forall|i: int| 0 <= i < keys.len() ==> resolve(table, #[trigger] keys[i]) is Some {
        Some(Seq::new(keys.len(), |i: int| resolve(table, keys[i])->0))
    } else {
        None
    }
}

/// A table knows the identity of each of its entries.
pub proof fn lemma_resolve_known(table: Seq<KnownAccount>, k: int)
    requires
        0 <= k < table.len(),
    ensures
        resolve(table, table[k].address@) is Some,
    decreases table.len(),
{
    if table[0].address@ != table[k].address@ {
        assert(table.drop_first()[k - 1] == table[k]);
        lemma_resolve_known(table.drop_first(), k - 1);
    }
}

/// Looks an identity up in the table of known accounts.
pub fn resolve_account(table: &Vec<KnownAccount>, key: &Address) -> (res: Result<
    AccountRole,
    GachaError,
>)
    ensures
        res == match resolve(table@, key@) {
            Some(role) => Ok::<AccountRole, GachaError>(role),
            None => Err::<AccountRole, GachaError>(GachaError::InvalidAccount),
        },
{
    let mut i: usize = 0;
    assert(table@.skip(0) =~= table@);
    while i < table.len()
        invariant
            i <= table.len(),
            resolve(table@, key@) == resolve(table@.skip(i as int), key@),
        decreases table.len() - i,
    {
        if table[i].address == *key {
            assert(table@.skip(i as int)[0] == table@[i as int]);
            return Ok(table[i].role);
        }
        assert(table@.skip(i as int)[0] == table@[i as int]);
        assert(table@.skip(i as int).drop_first() =~= table@.skip(i as int + 1));
        i += 1;
    }
    assert(table@.skip(i as int).len() == 0);
    Err(GachaError::InvalidAccount)
}

/// Whether an invocation is the given instruction with every account that
/// it names resolved, under the given authority and failure signal.
pub open spec fn resolves_to(
    invocation: Invocation,
    table: Seq<KnownAccount>,
    instruction: Instruction,
    authority: SigningAuthority,
    on_failure: Option<GachaError>,
) -> bool {
    &&& invocation.instruction == instruction
    &&& invocation.authority == authority
    &&& invocation.on_failure == on_failure
    &&& resolve_all(table, instruction_accounts(instruction)) == Some(invocation.accounts@)
}

/// Resolves every account that an instruction names. An identity that the
/// table does not know fails the whole instruction.
pub fn resolve_instruction(
    table: &Vec<KnownAccount>,
    instruction: Instruction,
    authority: SigningAuthority,
    on_failure: Option<GachaError>,
) -> (res: Result<Invocation, GachaError>)
    ensures
        match resolve_all(table@, instruction_accounts(instruction)) {
            Some(_) => res matches Ok(invocation) && resolves_to(
                invocation,
                table@,
                instruction,
                authority,
                on_failure,
            ),
            None => res == Err::<Invocation, GachaError>(GachaError::InvalidAccount),
        },
{
    let keys = account_keys(&instruction);
    let ghost named = instruction_accounts(instruction);
    let mut accounts: Vec<AccountRole> = Vec::new();
    let mut i: usize = 0;
    while i < keys.len()
        invariant
            i <= keys.len(),
            named == instruction_accounts(instruction),
            keys@.len() == named.len(),
            forall|j: int| 0 <= j < keys@.len() ==> (#[trigger] keys@[j])@ == named[j],
            accounts@.len() == i,
            forall|j: int| 0 <= j < i ==> resolve(table@, #[trigger] named[j]) == Some(accounts@[j]),
        decreases keys.len() - i,
    {
        match resolve_account(table, &keys[i]) {
            Ok(role) => accounts.push(role),
            Err(error) => {
                assert(keys@[i as int]@ == named[i as int]);
                assert(!(resolve(table@, named[i as int]) is Some));
                return Err(error);
            },
        }
        i += 1;
    }
    assert(resolve_all(table@, named) is Some);
    assert(resolve_all(table@, named)->0 =~= accounts@);
    Ok(Invocation { instruction, accounts, authority, on_failure })
}

/// Whether a plan is the given instructions, each with every account that it
/// names resolved, all under the given authority and failure signal.
pub open spec fn plan_resolves(
    plan: Seq<Invocation>,
    table: Seq<KnownAccount>,
    instructions: Seq<Instruction>,
    authority: SigningAuthority,
    on_failure: Option<GachaError>,
) -> bool {
    &&& plan.len() == instructions.len()
    &&& forall|i: int|
        0 <= i < plan.len() ==> resolves_to(
            #[trigger] plan[i],
            table,
            instructions[i],
            authority,
            on_failure,
        )
}

/// Whether the table knows every account that every instruction names.
pub open spec fn all_resolvable(table: Seq<KnownAccount>, instructions: Seq<Instruction>) -> bool {
    forall|i: int|
        0 <= i < instructions.len() ==> resolve_all(
            table,
            instruction_accounts(#[trigger] instructions[i]),
        ) is Some
}

/// Resolves the accounts of a sequence of instructions. One identity that
/// the table does not know, in any of them, fails them all.
pub fn resolve_instructions(
    table: &Vec<KnownAccount>,
    instructions: Vec<Instruction>,
    authority: SigningAuthority,
    on_failure: Option<GachaError>,
) -> (res: Result<Vec<Invocation>, GachaError>)
    ensures
        res is Ok <==> all_resolvable(table@, instructions@),
        res matches Ok(plan) ==> plan_resolves(plan@, table@, instructions@, authority, on_failure),
        res matches Err(error) ==> error == GachaError::InvalidAccount,
{
    let ghost all = instructions@;
    let mut plan: Vec<Invocation> = Vec::new();
    for instruction in iter: instructions
        invariant
            iter.seq() == all,
            plan@.len() == iter.index(),
            forall|j: int|
                0 <= j < plan@.len() ==> resolves_to(
                    #[trigger] plan@[j],
                    table@,
                    all[j],
                    authority,
                    on_failure,
                ),
    {
        match resolve_instruction(table, instruction, authority, on_failure) {
            Ok(invocation) => plan.push(invocation),
            Err(error) => {
                assert(instruction == all[iter.index() as int]);
                assert(!(resolve_all(table@, instruction_accounts(all[iter.index() as int])) is Some));
                return Err(error);
            },
        }
    }
    assert forall|i: int| 0 <= i < all.len() implies resolve_all(
        table@,
        instruction_accounts(#[trigger] all[i]),
    ) is Some by {
        assert(resolves_to(plan@[i], table@, all[i], authority, on_failure));
    }
    Ok(plan)
}

} // verus!
