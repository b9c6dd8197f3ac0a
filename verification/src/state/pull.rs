use vstd::prelude::*;
use crate::state::constants::{AE_CIPHERTEXT_MAX_BASE64_LEN, ELGAMAL_PUBKEY_MAX_BASE64_LEN};
use vstd::bytes::spec_u64_to_le_bytes;
use crate::address::Address;
use crate::bytes::array_to_vec;
use crate::error::GachaError;
use crate::pda::{seed_bytes, PULL_SEED};

verus! {

/// One gacha slot: the commitment, its escrow, and how far its life has gone.
#[derive(Debug, Clone, Copy, PartialEq, Eq)]
pub struct Pull {
    pub id: u64,
    /// The confidential escrow that only this pull may spend from.
    pub reward_vault: Address,
    /// The committed reward amount: an ElGamal ciphertext in base64.
    pub encrypted_amount: [u8; ELGAMAL_PUBKEY_MAX_BASE64_LEN],
    /// The buyer, once the pull has been bought.
    pub buyer: Option<Address>,
    pub verified: bool,
    pub claimed: bool,
    /// The disclosed amount; meaningful once `claimed`.
    pub revealed_amount: u64,
    pub pull_id_bytes: [u8; 8],
    pub bump: u8,
    /// The certificates that authorise the reveal.
    pub equality_proof_account: Address,
    pub ciphertext_validity_proof_account: Address,
    pub range_proof_account: Address,
    /// The two halves of the transfer amount as the auditor sees it, in base64.
    pub transfer_amount_auditor_ciphertext_lo: [u8; ELGAMAL_PUBKEY_MAX_BASE64_LEN],
    pub transfer_amount_auditor_ciphertext_hi: [u8; ELGAMAL_PUBKEY_MAX_BASE64_LEN],
    /// The escrow's decryptable balance after the reveal, in base64.
    pub final_decryptable_available_balance: [u8; AE_CIPHERTEXT_MAX_BASE64_LEN],
}

impl Pull {
    /// The order of a pull's life: a buyer only once verified, a reveal only
    /// once bought, and no amount on record before the reveal. The bytes of
    /// the id, from which the pull signs, are those of its id.
    pub open spec fn wf(&self) -> bool {
        &&& self.buyer is Some ==> self.verified
        &&& self.claimed ==> self.buyer is Some
        &&& !self.claimed ==> self.revealed_amount == 0
        &&& self.pull_id_bytes@ == spec_u64_to_le_bytes(self.id)
    }

    /// Whether the pull has been bought by this very party.
    pub open spec fn bought_by(&self, buyer: Address) -> bool {
        self.buyer matches Some(owner) && owner@ == buyer@
    }

    /// What the sequencing rules say of a purchase: the pull must have no
    /// buyer yet, be verified, and not be claimed, checked in this order.
    pub open spec fn purchase_guard(&self) -> Result<(), GachaError> {
        if self.buyer is Some {
            Err(GachaError::PullAlreadyPurchased)
        } else if !self.verified {
            Err(GachaError::PullNotVerified)
        } else if self.claimed {
            Err(GachaError::PullAlreadyClaimed)
        } else {
            Ok(())
        }
    }

    /// What the sequencing rules say of a reveal asked by `buyer`: the party
    /// must be the buyer, and the pull not claimed yet, checked in this order.
    pub open spec fn reveal_guard(&self, buyer: Address) -> Result<(), GachaError> {
        if !self.bought_by(buyer) {
            Err(GachaError::InvalidBuyer)
        } else if self.claimed {
            Err(GachaError::PullAlreadyClaimed)
        } else {
            Ok(())
        }
    }

    /// The seeds of the pull's signing authority: `pull`, the bytes of the
    /// id, and the bump seed. Only the program can sign for the address that
    /// they derive; no key stands behind it.
    pub fn get_signer_seeds(&self) -> (seeds: Vec<Vec<u8>>)
        ensures
            seed_bytes(seeds@) == seq![PULL_SEED@, self.pull_id_bytes@, seq![self.bump]],
    {
        let mut bump: Vec<u8> = Vec::new();
        bump.push(self.bump);
        let mut seeds: Vec<Vec<u8>> = Vec::new();
        seeds.push(array_to_vec(&PULL_SEED));
        seeds.push(array_to_vec(&self.pull_id_bytes));
        seeds.push(bump);
        assert(seeds@[2]@ =~= seq![self.bump]);
        assert(seed_bytes(seeds@) =~= seq![PULL_SEED@, self.pull_id_bytes@, seq![self.bump]]);
        seeds
    }

    /// Checks the sequencing rules of a purchase.
    pub fn check_purchase(&self) -> (res: Result<(), GachaError>)
        ensures
            res == self.purchase_guard(),
    {
        if self.buyer.is_some() {
            return Err(GachaError::PullAlreadyPurchased);
        }
        if !self.verified {
            return Err(GachaError::PullNotVerified);
        }
        if self.claimed {
            return Err(GachaError::PullAlreadyClaimed);
        }
        Ok(())
    }

    /// Checks the sequencing rules of a reveal.
    pub fn check_reveal(&self, buyer: &Address) -> (res: Result<(), GachaError>)
        ensures
            res == self.reveal_guard(*buyer),
    {
        let is_buyer = match &self.buyer {
            Some(owner) => *owner == *buyer,
            None => false,
        };
        if !is_buyer {
            return Err(GachaError::InvalidBuyer);
        }
        if self.claimed {
            return Err(GachaError::PullAlreadyClaimed);
        }
        Ok(())
    }
}

} // verus!
