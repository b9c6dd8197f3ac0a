use vstd::prelude::*;

verus! {

/// Byte length of an ElGamal ciphertext
pub const ELGAMAL_CIPHERTEXT_LEN: usize = 64;

/// Length of the base64 text of an authenticated encryption ciphertext
pub const AE_CIPHERTEXT_MAX_BASE64_LEN: usize = 48;

/// Length of the base64 text of an ElGamal ciphertext
pub const ELGAMAL_PUBKEY_MAX_BASE64_LEN: usize = 88;

} // verus!
