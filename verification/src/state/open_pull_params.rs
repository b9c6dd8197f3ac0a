use vstd::prelude::*;
use crate::state::constants::AE_CIPHERTEXT_MAX_BASE64_LEN;

verus! {

#[derive(Debug, Clone, Copy, PartialEq, Eq)]
pub struct OpenPullParams {
    pub pull_id: u64,
    pub amount: u64,
    pub decimals: u8,
    pub new_decryptable_available_balance: [u8; AE_CIPHERTEXT_MAX_BASE64_LEN],
}

} // verus!
