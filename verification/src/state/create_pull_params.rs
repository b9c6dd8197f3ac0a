use vstd::prelude::*;
use crate::state::constants::{AE_CIPHERTEXT_MAX_BASE64_LEN, ELGAMAL_PUBKEY_MAX_BASE64_LEN};

verus! {

#[derive(Debug, Clone, Copy, PartialEq, Eq)]
pub struct CreatePullParams {
    pub pull_id: u64,
    /// The committed reward amount: an ElGamal ciphertext in base64.
    pub encrypted_amount: [u8; ELGAMAL_PUBKEY_MAX_BASE64_LEN],
    /// The escrow's first decryptable balance, of zero, in base64.
    pub decryptable_zero_balance_base64: [u8; AE_CIPHERTEXT_MAX_BASE64_LEN],
}

} // verus!
