use vstd::prelude::*;
use spl_token_2022::ID;
use crate::address::Address;

verus! {

/// The confidential ledger's program.
#[derive(Clone, Copy, Debug)]
pub struct Token2022;

/// The bytes of the Token-2022 program's identity,
/// `TokenzQdBNbLqP5VEhdkAS6EPFLC1PHnBqCXEpPxuEb` in base58.
pub const TOKEN_2022_PROGRAM_ID: [u8; 32] = [
    6, 221, 246, 225, 238, 117, 143, 222, 24, 66, 93, 188, 228, 108, 205, 218, 182, 26, 252, 77, 131,
    185, 13, 39, 254, 189, 249, 40, 216, 161, 139, 252,
];

/// `spl_token_2022::ID`: the identity of the Token-2022 program.
#[verifier::external_body]
fn token_2022_program_id() -> (id: Address)
    ensures
        id@ == TOKEN_2022_PROGRAM_ID@,
{
    Address { bytes: ID.to_bytes() }
}

impl Token2022 {
    /// The identity of the Token-2022 program.
    pub fn id() -> (id: Address)
        ensures
            id@ == TOKEN_2022_PROGRAM_ID@,
    {
        token_2022_program_id()
    }
}

} // verus!
