//! Proof certificates: the records that the proof verifier leaves behind.

use vstd::prelude::*;
use anchor_lang::solana_program::program_error::ProgramError;
use spl_pod::bytemuck::pod_from_bytes;
use spl_token_2022::extension::confidential_transfer::instruction::pod::PodProofType;
use spl_token_2022::extension::confidential_transfer::instruction::ProofContextState;
use spl_token_2022::extension::confidential_transfer::instruction::ProofType;
use spl_token_2022::extension::confidential_transfer::instruction::ZeroCiphertextProofContext;
use crate::address::Address;

verus! {

/// Byte length of a zero-ciphertext certificate.
pub const ZERO_CIPHERTEXT_CERTIFICATE_LEN: usize = 129;

/// A certificate that some ciphertext encrypts zero under some key.
#[derive(Debug, Clone, Copy, PartialEq, Eq)]
pub struct ZeroCiphertextCertificate {
    /// Who controls the certificate.
    pub context_state_authority: Address,
    /// The kind of proof that the certificate records.
    pub proof_type: u8,
    /// The key of the statement.
    pub elgamal_pubkey: [u8; 32],
    /// The ciphertext of the statement.
    pub ciphertext: [u8; 64],
}

/// A certificate as the rules read it.
pub struct CertificateRecord {
    pub context_state_authority: Seq<u8>,
    pub proof_type: u8,
    pub elgamal_pubkey: Seq<u8>,
    pub ciphertext: Seq<u8>,
}

impl View for ZeroCiphertextCertificate {
    type V = CertificateRecord;

    open spec fn view(&self) -> CertificateRecord {
        CertificateRecord {
            context_state_authority: self.context_state_authority@,
            proof_type: self.proof_type,
            elgamal_pubkey: self.elgamal_pubkey@,
            ciphertext: self.ciphertext@,
        }
    }
}

/// The certificate that a stored record holds: a record has exactly 129
/// bytes, the authority (32), the proof kind (1), the key (32) and the
/// ciphertext (64), in that order.
pub open spec fn certificate_record(data: Seq<u8>) -> Option<CertificateRecord> {
    if data.len() == ZERO_CIPHERTEXT_CERTIFICATE_LEN {
        Some(
            CertificateRecord {
                context_state_authority: data.subrange(0, 32),
                proof_type: data[32],
                elgamal_pubkey: data.subrange(33, 65),
                ciphertext: data.subrange(65, 129),
            },
        )
    } else {
        None
    }
}

/// `spl_pod::bytemuck::pod_from_bytes::<ProofContextState<ZeroCiphertextProofContext>>`:
/// reads a record of exactly 129 bytes as the authority (32 bytes), the proof
/// kind (1), the key (32) and the ciphertext (64), in that order; any other
/// length is an error.
#[verifier::external_body]
pub(crate) fn read_zero_ciphertext_certificate(data: &[u8]) -> (res: Result<
    ZeroCiphertextCertificate,
    ProgramError,
>)
    ensures
        certificate_record(data@) == match res {
            Ok(certificate) => Some(certificate@),
            Err(_) => None,
        },
{
    let state = pod_from_bytes::<ProofContextState<ZeroCiphertextProofContext>>(data)?;
    Ok(ZeroCiphertextCertificate {
        context_state_authority: Address { bytes: state.context_state_authority.to_bytes() },
        proof_type: bytemuck::cast(state.proof_type),
        elgamal_pubkey: bytemuck::cast(state.proof_context.pubkey),
        ciphertext: bytemuck::cast(state.proof_context.ciphertext),
    })
}

/// The code of the zero-ciphertext proof kind.
pub const ZERO_CIPHERTEXT_PROOF_TYPE: u8 = 1;

/// `PodProofType::from(ProofType::ZeroCiphertext)`: the code under which a
/// record names the zero-ciphertext kind, the second of the kinds, counted
/// from 0.
#[verifier::external_body]
pub(crate) fn zero_ciphertext_proof_type() -> (code: u8)
    ensures
        code == ZERO_CIPHERTEXT_PROOF_TYPE,
{
    bytemuck::cast(PodProofType::from(ProofType::ZeroCiphertext))
}

} // verus!
