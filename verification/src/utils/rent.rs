use vstd::prelude::*;
use anchor_lang::prelude::Pubkey;
use crate::address::Address;

verus! {

/// The rent sysvar.
#[derive(Clone, Copy, Debug)]
pub struct Rent;

/// The bytes of the rent sysvar's identity,
/// `SysvarRent111111111111111111111111111111111` in base58.
pub const RENT_SYSVAR_ID: [u8; 32] = [
    6, 167, 213, 23, 25, 44, 92, 81, 33, 140, 201, 76, 61, 74, 241, 127, 88, 218, 238, 8, 155, 161,
    253, 68, 227, 219, 217, 138, 0, 0, 0, 0,
];

/// `Pubkey::from_str_const`: the identity that the text names in base58.
#[verifier::external_body]
fn rent_sysvar_id() -> (id: Address)
    ensures
        id@ == RENT_SYSVAR_ID@,
{
    Address { bytes: Pubkey::from_str_const("SysvarRent111111111111111111111111111111111").to_bytes() }
}

impl Rent {
    /// The identity of the rent sysvar.
    pub fn id() -> (id: Address)
        ensures
            id@ == RENT_SYSVAR_ID@,
    {
        rent_sysvar_id()
    }
}

} // verus!
