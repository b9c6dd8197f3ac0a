//! What holds of a pull over its whole life: created, verified, bought,
//! claimed, each at most once and in this order.

use vstd::prelude::*;
use anchor_lang::solana_program::instruction::Instruction;
use crate::address::Address;
use crate::error::{FailureKind, GachaError};
use crate::instructions::buy_pull::bought_pull;
use crate::instructions::claim_pull::{claim_ruling, claimed_pull, ClaimPull};
use crate::instructions::create_pull::{is_created_pull, CreatePull};
use crate::instructions::open_pull::{open_ruling, opened_pull, OpenPull};
use crate::instructions::verify_pull::{reward_balance_ruling, verified_pull, VerifyPull};
use crate::ledger::certificate::certificate_record;
use crate::state::{CreatePullParams, OpenPullParams, Pull, VerifyPullParams};

verus! {

/// A pull as it is created is in order.
pub proof fn lemma_created_pull_in_order(
    pull: Pull,
    accounts: CreatePull,
    params: CreatePullParams,
    bump: u8,
)
    requires
        is_created_pull(pull, accounts, params, bump),
    ensures
        pull.wf(),
{
}

/// Every transition keeps a pull in order: a verification, a purchase that
/// the rules allow, and a reveal, of either kind, that the rules allow.
pub proof fn lemma_transitions_keep_order(
    pull: Pull,
    verify: VerifyPull,
    verify_params: VerifyPullParams,
    buyer: Address,
    open: OpenPull,
    claim: ClaimPull,
    amount: u64,
)
    requires
        pull.wf(),
    ensures
        verified_pull(pull, verify, verify_params).wf(),
        pull.purchase_guard() is Ok ==> bought_pull(pull, buyer).wf(),
        pull.reveal_guard(open.buyer) is Ok ==> opened_pull(pull, open, amount).wf(),
        pull.reveal_guard(claim.buyer) is Ok ==> claimed_pull(pull, amount).wf(),
{
}

/// The pull after a purchase attempt by `buyer`: bought where the rules
/// allow it, untouched where they do not.
pub open spec fn after_purchase(pull: Pull, buyer: Address) -> Pull {
    if pull.purchase_guard() is Ok {
        bought_pull(pull, buyer)
    } else {
        pull
    }
}

/// The pull after a sequence of purchase attempts, each taken in its turn.
pub open spec fn after_purchases(pull: Pull, buyers: Seq<Address>) -> Pull
    decreases buyers.len(),
{
    if buyers.len() == 0 {
        pull
    } else {
        after_purchase(after_purchases(pull, buyers.drop_last()), buyers.last())
    }
}

/// How many purchase attempts of a sequence succeed.
pub open spec fn purchases(pull: Pull, buyers: Seq<Address>) -> nat
    decreases buyers.len(),
{
    if buyers.len() == 0 {
        0
    } else if after_purchases(pull, buyers.drop_last()).purchase_guard() is Ok {
        purchases(pull, buyers.drop_last()) + 1
    } else {
        purchases(pull, buyers.drop_last())
    }
}

/// Of two purchase attempts on one pull, whoever makes them and in
/// whichever order they are taken, exactly one succeeds where the pull could
/// be bought, and none where it could not. The one that loses to the other
/// is told that the pull is already purchased.
pub proof fn lemma_two_purchases_one_success(pull: Pull, first: Address, second: Address)
    ensures
        pull.purchase_guard() is Ok ==> after_purchase(pull, first).purchase_guard() == Err::<
            (),
            GachaError,
        >(GachaError::PullAlreadyPurchased),
        pull.purchase_guard() is Ok ==> purchases(pull, seq![first, second]) == 1,
        pull.purchase_guard() is Err ==> purchases(pull, seq![first, second]) == 0,
        pull.purchase_guard() is Err ==> after_purchases(pull, seq![first, second]) == pull,
{
    reveal_with_fuel(purchases, 3);
    reveal_with_fuel(after_purchases, 3);
    let both = seq![first, second];
    let one = both.drop_last();
    assert(one =~= seq![first]);
    assert(one.drop_last() =~= Seq::<Address>::empty());
    assert(one.last() == first);
    assert(both.last() == second);
    assert(after_purchases(pull, one.drop_last()) == pull);
    assert(after_purchases(pull, one) == after_purchase(pull, first));
    assert(purchases(pull, one.drop_last()) == 0);
}

/// However many purchase attempts are made on one pull, at most one
/// succeeds, and after it the pull has a buyer.
pub proof fn lemma_at_most_one_purchase(pull: Pull, buyers: Seq<Address>)
    ensures
        purchases(pull, buyers) <= 1,
        purchases(pull, buyers) == 1 ==> after_purchases(pull, buyers).buyer is Some,
        purchases(pull, buyers) == 0 ==> after_purchases(pull, buyers) == pull,
    decreases buyers.len(),
{
    if buyers.len() > 0 {
        lemma_at_most_one_purchase(pull, buyers.drop_last());
    }
}

/// A reveal happens once. After a reveal of either kind the pull is claimed
/// with the amount on record, and every further reveal fails, whoever asks
/// for it and of whichever kind: the buyer is told that the pull is already
/// claimed, anyone else that they are not the buyer. A failed request leaves
/// the pull as it was, so the amount on record stays.
pub proof fn lemma_reveal_happens_once(
    pull: Pull,
    open: OpenPull,
    claim: ClaimPull,
    amount: u64,
    later_open: OpenPull,
    later_claim: ClaimPull,
    later_params: OpenPullParams,
)
    ensures
        opened_pull(pull, open, amount).claimed,
        opened_pull(pull, open, amount).revealed_amount == amount,
        claimed_pull(pull, amount).claimed,
        claimed_pull(pull, amount).revealed_amount == amount,
        open_ruling(later_open, opened_pull(pull, open, amount), later_params) is Err,
        open_ruling(later_open, claimed_pull(pull, amount), later_params) is Err,
        claim_ruling(later_claim, opened_pull(pull, open, amount)) is Err,
        claim_ruling(later_claim, claimed_pull(pull, amount)) is Err,
        pull.bought_by(later_open.buyer) ==> open_ruling(
            later_open,
            opened_pull(pull, open, amount),
            later_params,
        ) == Err::<Instruction, GachaError>(GachaError::PullAlreadyClaimed),
        pull.bought_by(later_claim.buyer) ==> claim_ruling(
            later_claim,
            claimed_pull(pull, amount),
        ) == Err::<Instruction, FailureKind>(FailureKind::Gacha(GachaError::PullAlreadyClaimed)),
        !pull.bought_by(later_open.buyer) ==> open_ruling(
            later_open,
            opened_pull(pull, open, amount),
            later_params,
        ) == Err::<Instruction, GachaError>(GachaError::InvalidBuyer),
{
}

/// A purchase of a pull that is not verified is refused as such, whatever
/// else was tried on it before.
pub proof fn lemma_unverified_pull_cannot_be_bought(pull: Pull)
    requires
        pull.wf(),
        !pull.verified,
    ensures
        pull.purchase_guard() == Err::<(), GachaError>(GachaError::PullNotVerified),
{
}

/// Two records of a certificate that hold the same fields are the same
/// bytes.
proof fn lemma_certificate_record_injective(a: Seq<u8>, b: Seq<u8>)
    requires
        certificate_record(a) is Some,
        certificate_record(a) == certificate_record(b),
    ensures
        a == b,
{
    let ra = certificate_record(a)->0;
    let rb = certificate_record(b)->0;
    assert(a.len() == 129 && b.len() == 129);
    assert forall|i: int| 0 <= i < 129 implies a[i] == b[i] by {
        if i < 32 {
            assert(a[i] == ra.context_state_authority[i]);
            assert(b[i] == rb.context_state_authority[i]);
        } else if i == 32 {
        } else if i < 65 {
            assert(a[i] == ra.elgamal_pubkey[i - 33]);
            assert(b[i] == rb.elgamal_pubkey[i - 33]);
        } else {
            assert(a[i] == ra.ciphertext[i - 65]);
            assert(b[i] == rb.ciphertext[i - 65]);
        }
    }
    assert(a =~= b);
}

/// Verification cannot be passed with something substituted. For one escrow
/// and one commitment, exactly one certificate record is accepted, byte for
/// byte, and only under the one authority that it names: any other record,
/// and any other authority, is refused.
pub proof fn lemma_verification_rejects_substitution(
    authority: Seq<u8>,
    encrypted_amount: Seq<u8>,
    vault_data: Seq<u8>,
    certificate_data: Seq<u8>,
    other_authority: Seq<u8>,
    other_certificate_data: Seq<u8>,
)
    requires
        reward_balance_ruling(authority, encrypted_amount, vault_data, certificate_data) is Ok,
    ensures
        other_certificate_data != certificate_data ==> reward_balance_ruling(
            authority,
            encrypted_amount,
            vault_data,
            other_certificate_data,
        ) is Err,
        other_authority != authority ==> reward_balance_ruling(
            other_authority,
            encrypted_amount,
            vault_data,
            certificate_data,
        ) == Err::<(), FailureKind>(FailureKind::Gacha(GachaError::InvalidContextAuthority)),
{
    if reward_balance_ruling(authority, encrypted_amount, vault_data, other_certificate_data) is Ok {
        let a = certificate_record(certificate_data)->0;
        let b = certificate_record(other_certificate_data)->0;
        assert(a.proof_type == b.proof_type);
        assert(a.elgamal_pubkey == b.elgamal_pubkey);
        assert(a.context_state_authority == b.context_state_authority);
        assert(a.ciphertext == b.ciphertext);
        lemma_certificate_record_injective(certificate_data, other_certificate_data);
    }
}

} // verus!
