//! The programs and system accounts that the protocol names.

pub mod rent;
pub mod token_2022;
pub mod zk_elgamal_proof_program;
