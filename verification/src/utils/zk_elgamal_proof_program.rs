use vstd::prelude::*;
use spl_token_2022::solana_zk_sdk::zk_elgamal_proof_program::ID;
use crate::address::Address;

verus! {

/// The proof verifier's program.
#[derive(Clone, Copy, Debug, PartialEq, Eq)]
pub struct ZkElgamalProof;

/// The bytes of the proof program's identity,
/// `ZkE1Gama1Proof11111111111111111111111111111` in base58.
pub const ZK_ELGAMAL_PROOF_PROGRAM_ID: [u8; 32] = [
    8, 99, 117, 172, 226, 174, 234, 40, 26, 107, 55, 77, 104, 27, 167, 106, 83, 204, 246, 56, 192,
    116, 85, 147, 108, 5, 208, 101, 64, 0, 0, 0,
];

/// `solana_zk_sdk::zk_elgamal_proof_program::ID`: the identity of the proof
/// program.
#[verifier::external_body]
fn zk_elgamal_proof_program_id() -> (id: Address)
    ensures
        id@ == ZK_ELGAMAL_PROOF_PROGRAM_ID@,
{
    Address { bytes: ID.to_bytes() }
}

impl ZkElgamalProof {
    /// The identity of the proof program.
    pub fn id() -> (id: Address)
        ensures
            id@ == ZK_ELGAMAL_PROOF_PROGRAM_ID@,
    {
        zk_elgamal_proof_program_id()
    }
}

} // verus!
