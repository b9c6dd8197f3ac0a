//! The failures that the protocol signals.

use vstd::prelude::*;
use anchor_lang::solana_program::program_error::ProgramError;

verus! {

/// A rule of the protocol that a request broke.
#[derive(Clone, Copy, Debug, PartialEq, Eq, Structural)]
pub enum GachaError {
    /// The reward asset does not support confidential balances.
    InvalidRewardMint,
    /// The price of a pull must be positive.
    InvalidZeroPullPrice,
    /// The pull id is not the next one in sequence.
    InvalidPullId,
    /// The escrow could not be configured for confidential balances.
    ConfigureTokenAccountFailed,
    /// A proof certificate could not be closed.
    CloseContextStateFailed,
    /// Proof data could not be converted.
    ProofDataConversionError,
    /// A sub-operation named an account that the request does not know.
    InvalidAccount,
    /// The escrow has not been verified against the commitment.
    PullNotVerified,
    /// The pull already has a buyer.
    PullAlreadyPurchased,
    /// The reward has already been revealed.
    PullAlreadyClaimed,
    /// The party asking for the reveal is not the buyer.
    InvalidBuyer,
    /// The certificate is not a zero-ciphertext certificate.
    InvalidProofType,
    /// The certificate speaks of another encryption key.
    InvalidElgamalPubkey,
    /// The certificate is controlled by another authority.
    InvalidContextAuthority,
    /// Two ciphertexts could not be combined.
    CiphertextArithmeticFailed,
    /// The certificate's ciphertext is not the escrow's remainder.
    CiphertextZeroBalanceMismatch,
    /// A decryptable-balance snapshot is not a valid encoding.
    DecryptableBalanceConversionFailed,
    /// A balance ciphertext is not a valid encoding.
    CipherTextBalanceConversionFailed,
}

impl GachaError {
    /// The message that goes with the failure.
    pub fn message(&self) -> (text: &'static str)
        ensures
            text@ == self.spec_message()@,
    {
        match self {
            GachaError::InvalidRewardMint => "Invalid reward mint",
            GachaError::InvalidZeroPullPrice => "Pull price is zero",
            GachaError::InvalidPullId => "Invalid pull id",
            GachaError::ConfigureTokenAccountFailed => "Failed to configure confidential transfer account",
            GachaError::CloseContextStateFailed => "Failed to close context state account",
            GachaError::ProofDataConversionError => "ProofDataConversionError",
            GachaError::InvalidAccount => "Invalid account provided",
            GachaError::PullNotVerified => "Pull not verified",
            GachaError::PullAlreadyPurchased => "Pull already purchased",
            GachaError::PullAlreadyClaimed => "Pull already claimed",
            GachaError::InvalidBuyer => "Invalid buyer",
            GachaError::InvalidProofType => "Invalid proof type",
            GachaError::InvalidElgamalPubkey => "Invalid elgamal pubkey",
            GachaError::InvalidContextAuthority => "Invalid context authority",
            GachaError::CiphertextArithmeticFailed => "Ciphertext arithmetic failed",
            GachaError::CiphertextZeroBalanceMismatch => "Ciphertext zero balance mismatch",
            GachaError::DecryptableBalanceConversionFailed => "Decryptable balance conversion failed",
            GachaError::CipherTextBalanceConversionFailed => "Ciphertext balance conversion failed",
        }
    }

    /// The message that goes with each failure.
    pub open spec fn spec_message(&self) -> &'static str {
        match self {
            GachaError::InvalidRewardMint => "Invalid reward mint",
            GachaError::InvalidZeroPullPrice => "Pull price is zero",
            GachaError::InvalidPullId => "Invalid pull id",
            GachaError::ConfigureTokenAccountFailed => "Failed to configure confidential transfer account",
            GachaError::CloseContextStateFailed => "Failed to close context state account",
            GachaError::ProofDataConversionError => "ProofDataConversionError",
            GachaError::InvalidAccount => "Invalid account provided",
            GachaError::PullNotVerified => "Pull not verified",
            GachaError::PullAlreadyPurchased => "Pull already purchased",
            GachaError::PullAlreadyClaimed => "Pull already claimed",
            GachaError::InvalidBuyer => "Invalid buyer",
            GachaError::InvalidProofType => "Invalid proof type",
            GachaError::InvalidElgamalPubkey => "Invalid elgamal pubkey",
            GachaError::InvalidContextAuthority => "Invalid context authority",
            GachaError::CiphertextArithmeticFailed => "Ciphertext arithmetic failed",
            GachaError::CiphertextZeroBalanceMismatch => "Ciphertext zero balance mismatch",
            GachaError::DecryptableBalanceConversionFailed => "Decryptable balance conversion failed",
            GachaError::CipherTextBalanceConversionFailed => "Ciphertext balance conversion failed",
        }
    }
}

/// Error type of the ledger's own library, carried through unread.
#[verifier::external_type_specification]
#[verifier::external_body]
pub struct ExProgramError(ProgramError);

/// Why a request failed: a rule of this protocol, or an error of the ledger's
/// library that is handed on as it came.
#[derive(Debug)]
pub enum Failure {
    Gacha(GachaError),
    Program(ProgramError),
}

/// A failure as the rules see it: which rule was broken, or that the
/// ledger's library failed.
pub enum FailureKind {
    Gacha(GachaError),
    Program,
}

impl View for Failure {
    type V = FailureKind;

    open spec fn view(&self) -> FailureKind {
        match self {
            Failure::Gacha(error) => FailureKind::Gacha(*error),
            Failure::Program(_) => FailureKind::Program,
        }
    }
}

} // verus!
