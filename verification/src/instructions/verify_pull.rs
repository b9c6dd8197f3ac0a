//! Verification: the escrow must hold exactly what was committed.

use vstd::prelude::*;
use crate::address::Address;
use crate::bytes::array_eq;
use crate::error::{Failure, FailureKind, GachaError};
use crate::event::PullVerified;
use crate::ledger::account::{confidential_account_of, read_confidential_account};
use crate::ledger::certificate::{
    certificate_record, read_zero_ciphertext_certificate, zero_ciphertext_proof_type,
    CertificateRecord, ZeroCiphertextCertificate, ZERO_CIPHERTEXT_PROOF_TYPE,
};
use crate::ledger::ciphertext::{
    ciphertext_difference, decode_encrypted_balance, encrypted_balance_of, remainder,
};
use crate::state::{GameConfig, Pull, VerifyPullParams};

verus! {

/// The accounts of a verification request.
#[derive(Debug, Clone, Copy, PartialEq, Eq)]
pub struct VerifyPull {
    pub game_config: Address,
    pub pull: Address,
    pub reward_vault: Address,
    pub authority: Address,
    /// The certificate that the escrow's remainder encrypts zero.
    pub zero_ciphertext_proof_context: Address,
    /// The certificates that will authorise the reveal.
    pub equality_proof_account: Address,
    pub ciphertext_validity_proof_account: Address,
    pub range_proof_account: Address,
    pub zk_elgamal_proof_program: Address,
    pub token_program: Address,
}

/// What the four checks say of a certificate, in their order: its kind, its
/// key, its authority, its ciphertext.
pub open spec fn certificate_ruling(
    certificate: CertificateRecord,
    elgamal_pubkey: Seq<u8>,
    authority: Seq<u8>,
    remaining_balance: Seq<u8>,
) -> Result<(), GachaError> {
    if certificate.proof_type != ZERO_CIPHERTEXT_PROOF_TYPE {
        Err(GachaError::InvalidProofType)
    } else if certificate.elgamal_pubkey != elgamal_pubkey {
        Err(GachaError::InvalidElgamalPubkey)
    } else if certificate.context_state_authority != authority {
        Err(GachaError::InvalidContextAuthority)
    } else if certificate.ciphertext != remaining_balance {
        Err(GachaError::CiphertextZeroBalanceMismatch)
    } else {
        Ok(())
    }
}

/// Holds a certificate against values that were derived without it: the
/// escrow's key, the game's authority and the escrow's remainder.
pub fn check_certificate(
    certificate: &ZeroCiphertextCertificate,
    elgamal_pubkey: &[u8; 32],
    authority: &Address,
    remaining_balance: &[u8; 64],
) -> (res: Result<(), GachaError>)
    ensures
        res == certificate_ruling(certificate@, elgamal_pubkey@, authority@, remaining_balance@),
{
    if certificate.proof_type != zero_ciphertext_proof_type() {
        return Err(GachaError::InvalidProofType);
    }
    if !array_eq(&certificate.elgamal_pubkey, elgamal_pubkey) {
        return Err(GachaError::InvalidElgamalPubkey);
    }
    if certificate.context_state_authority != *authority {
        return Err(GachaError::InvalidContextAuthority);
    }
    if !array_eq(&certificate.ciphertext, remaining_balance) {
        return Err(GachaError::CiphertextZeroBalanceMismatch);
    }
    Ok(())
}

/// What verification says of an escrow, a commitment and a certificate:
/// the escrow's record is read, the commitment decoded, the remainder
/// `available - committed` computed, and the certificate held against the
/// escrow's key, the authority and that remainder.
pub open spec fn reward_balance_ruling(
    authority: Seq<u8>,
    encrypted_amount: Seq<u8>,
    vault_data: Seq<u8>,
    certificate_data: Seq<u8>,
) -> Result<(), FailureKind> {
    match confidential_account_of(vault_data) {
        None => Err(FailureKind::Program),
        Some(vault) => match encrypted_balance_of(encrypted_amount) {
            None => Err(FailureKind::Gacha(GachaError::CipherTextBalanceConversionFailed)),
            Some(committed) => match ciphertext_difference(vault.available_balance@, committed) {
                None => Err(FailureKind::Gacha(GachaError::CiphertextArithmeticFailed)),
                Some(remaining_balance) => match certificate_record(certificate_data) {
                    None => Err(FailureKind::Program),
                    Some(certificate) => match certificate_ruling(
                        certificate,
                        vault.elgamal_pubkey@,
                        authority,
                        remaining_balance,
                    ) {
                        Ok(()) => Ok(()),
                        Err(error) => Err(FailureKind::Gacha(error)),
                    },
                },
            },
        },
    }
}

/// Checks that the escrow's available balance is the committed amount: their
/// difference must be the very ciphertext that a zero-ciphertext certificate,
/// under the escrow's key and the game's authority, speaks of.
pub fn verify_reward_balance(
    authority: &Address,
    encrypted_amount: &[u8; 88],
    vault_data: &[u8],
    certificate_data: &[u8],
) -> (res: Result<(), Failure>)
    ensures
        match reward_balance_ruling(authority@, encrypted_amount@, vault_data@, certificate_data@) {
            Ok(()) => res is Ok,
            Err(kind) => res matches Err(failure) && failure@ == kind,
        },
{
    let vault = match read_confidential_account(vault_data) {
        Ok(vault) => vault,
        Err(error) => return Err(Failure::Program(error)),
    };
    let committed = match decode_encrypted_balance(encrypted_amount) {
        Ok(committed) => committed,
        Err(error) => return Err(Failure::Gacha(error)),
    };
    let remaining_balance = match remainder(&vault.available_balance, &committed) {
        Ok(remaining_balance) => remaining_balance,
        Err(error) => return Err(Failure::Gacha(error)),
    };
    let certificate = match read_zero_ciphertext_certificate(certificate_data) {
        Ok(certificate) => certificate,
        Err(error) => return Err(Failure::Program(error)),
    };
    match check_certificate(&certificate, &vault.elgamal_pubkey, authority, &remaining_balance) {
        Ok(()) => Ok(()),
        Err(error) => Err(Failure::Gacha(error)),
    }
}

/// The pull after a successful verification: verified, with the references
/// to the reveal's certificates and the reveal's ciphertexts on record.
pub open spec fn verified_pull(pull: Pull, accounts: VerifyPull, params: VerifyPullParams) -> Pull {
    Pull {
        verified: true,
        equality_proof_account: accounts.equality_proof_account,
        ciphertext_validity_proof_account: accounts.ciphertext_validity_proof_account,
        range_proof_account: accounts.range_proof_account,
        transfer_amount_auditor_ciphertext_lo: params.transfer_amount_auditor_ciphertext_lo,
        transfer_amount_auditor_ciphertext_hi: params.transfer_amount_auditor_ciphertext_hi,
        final_decryptable_available_balance: params.final_decryptable_available_balance,
        ..pull
    }
}

/// Verifies a pull: where the escrow, read from `vault_data`, holds exactly
/// the commitment as the certificate in `certificate_data` attests, the pull
/// becomes verified, and nothing of it changes otherwise.
pub fn verify_pull(
    accounts: &VerifyPull,
    game_config: &GameConfig,
    pull: &mut Pull,
    params: &VerifyPullParams,
    vault_data: &[u8],
    certificate_data: &[u8],
) -> (res: Result<PullVerified, Failure>)
    ensures
        match reward_balance_ruling(
            game_config.authority@,
            old(pull).encrypted_amount@,
            vault_data@,
            certificate_data@,
        ) {
            Ok(()) => {
                &&& res matches Ok(event)
                &&& event == (PullVerified { id: old(pull).id, pull: accounts.pull })
                &&& *final(pull) == verified_pull(*old(pull), *accounts, *params)
            },
            Err(kind) => {
                &&& res matches Err(failure)
                &&& failure@ == kind
                &&& *final(pull) == *old(pull)
            },
        },
        old(pull).wf() ==> final(pull).wf(),
{
    match verify_reward_balance(
        &game_config.authority,
        &pull.encrypted_amount,
        vault_data,
        certificate_data,
    ) {
        Ok(()) => {},
        Err(failure) => return Err(failure),
    }
    pull.verified = true;
    pull.equality_proof_account = accounts.equality_proof_account;
    pull.ciphertext_validity_proof_account = accounts.ciphertext_validity_proof_account;
    pull.range_proof_account = accounts.range_proof_account;
    pull.transfer_amount_auditor_ciphertext_lo = params.transfer_amount_auditor_ciphertext_lo;
    pull.transfer_amount_auditor_ciphertext_hi = params.transfer_amount_auditor_ciphertext_hi;
    pull.final_decryptable_available_balance = params.final_decryptable_available_balance;
    Ok(PullVerified { id: pull.id, pull: accounts.pull })
}

} // verus!
