//! Deterministic addressing: the records of the game lie at addresses
//! derived from fixed seeds, so that any party can find them again.

use vstd::prelude::*;
use vstd::bytes::{spec_u64_to_le_bytes, u64_to_le_bytes};
use anchor_lang::prelude::Pubkey;
use crate::address::Address;
use crate::bytes::array_to_vec;

verus! {

/// The identity of the game's program,
/// `GaChaWso1g5y2Rby6pwLSRxezyoxtbaMDyb5sqwYvNGq` in base58.
pub const ID: [u8; 32] = [
    231, 96, 179, 11, 141, 245, 169, 186, 239, 167, 155, 237, 34, 243, 135, 189, 91, 66, 127, 134,
    105, 165, 131, 41, 169, 35, 151, 230, 16, 155, 247, 130,
];

/// The seed of the game's configuration: `game_config`.
pub const GAME_CONFIG_SEED: [u8; 11] = [103, 97, 109, 101, 95, 99, 111, 110, 102, 105, 103];

/// The first seed of a pull: `pull`.
pub const PULL_SEED: [u8; 4] = [112, 117, 108, 108];

/// The first seed of a pull's escrow: `reward_vault`.
pub const REWARD_VAULT_SEED: [u8; 12] = [114, 101, 119, 97, 114, 100, 95, 118, 97, 117, 108, 116];

/// The bytes of a pull id as the pull's address and authority are derived
/// from them: little-endian.
pub fn pull_id_seed(pull_id: u64) -> (seed: [u8; 8])
    ensures
        seed@ == spec_u64_to_le_bytes(pull_id),
{
    let bytes = u64_to_le_bytes(pull_id);
    let mut seed = [0u8; 8];
    let mut i: usize = 0;
    while i < 8
        invariant
            i <= 8,
            bytes@.len() == 8,
            forall|j: int| 0 <= j < i ==> seed@[j] == bytes@[j],
        decreases 8 - i,
    {
        seed[i] = bytes[i];
        i += 1;
    }
    assert(seed@ =~= bytes@);
    seed
}

/// The seeds of a list, each as its bytes.
pub open spec fn seed_bytes(seeds: Seq<Vec<u8>>) -> Seq<Seq<u8>> {
    Seq::new(seeds.len(), |i: int| seeds[i]@)
}

/// The address that `Pubkey::try_find_program_address` derives from seeds
/// for a program, with the bump seed that it found; nothing where there is
/// none.
pub uninterp spec fn derived_address(seeds: Seq<Seq<u8>>, program_id: Seq<u8>) -> Option<
    (Seq<u8>, u8),
>;

/// `Pubkey::try_find_program_address`: the address that the seeds derive for
/// the program, and the bump seed that makes it one that no key can sign
/// for. The result depends on the seeds and the program alone.
#[verifier::external_body]
fn try_find_program_address(seeds: &Vec<Vec<u8>>, program_id: &Address) -> (res: Option<
    (Address, u8),
>)
    ensures
        derived_address(seed_bytes(seeds@), program_id@) == match res {
            Some(found) => Some((found.0@, found.1)),
            None => None,
        },
{
    let seeds: Vec<&[u8]> = seeds.iter().map(|seed| seed.as_slice()).collect();
    Pubkey::try_find_program_address(&seeds, &program_id.bytes.into())
        .map(|(address, bump)| (Address { bytes: address.to_bytes() }, bump))
}

/// The address that the seeds derive for the game's program.
pub open spec fn game_address(seeds: Seq<Seq<u8>>) -> Option<Seq<u8>> {
    match derived_address(seeds, ID@) {
        Some(found) => Some(found.0),
        None => None,
    }
}

/// Derives the address that the seeds give for the game's program.
pub fn find_program_address(seeds: &Vec<Vec<u8>>) -> (res: Option<Address>)
    ensures
        game_address(seed_bytes(seeds@)) == match res {
            Some(address) => Some(address@),
            None => None,
        },
{
    match try_find_program_address(seeds, &Address::new(ID)) {
        Some(found) => Some(found.0),
        None => None,
    }
}

/// The seeds of the game's configuration.
pub fn get_game_config_seed() -> (seeds: Vec<Vec<u8>>)
    ensures
        seed_bytes(seeds@) == seq![GAME_CONFIG_SEED@],
{
    let mut seeds: Vec<Vec<u8>> = Vec::new();
    seeds.push(array_to_vec(&GAME_CONFIG_SEED));
    assert(seed_bytes(seeds@) =~= seq![GAME_CONFIG_SEED@]);
    seeds
}

/// The address of the game's configuration.
pub fn get_game_config_pubkey() -> (res: Option<Address>)
    ensures
        game_address(seq![GAME_CONFIG_SEED@]) == match res {
            Some(address) => Some(address@),
            None => None,
        },
{
    find_program_address(&get_game_config_seed())
}

/// The address of the pull with the given id: derived from `pull` and the
/// id's eight bytes, little-endian.
pub fn get_pull_pubkey(pull_id: u64) -> (res: Option<Address>)
    ensures
        game_address(seq![PULL_SEED@, spec_u64_to_le_bytes(pull_id)]) == match res {
            Some(address) => Some(address@),
            None => None,
        },
{
    let pull_id_bytes = pull_id_seed(pull_id);
    let mut seeds: Vec<Vec<u8>> = Vec::new();
    seeds.push(array_to_vec(&PULL_SEED));
    seeds.push(array_to_vec(&pull_id_bytes));
    assert(seed_bytes(seeds@) =~= seq![PULL_SEED@, spec_u64_to_le_bytes(pull_id)]);
    find_program_address(&seeds)
}

/// The address of a pull's escrow: derived from `reward_vault` and the
/// pull's address.
pub fn get_reward_vault_pubkey(pull: Address) -> (res: Option<Address>)
    ensures
        game_address(seq![REWARD_VAULT_SEED@, pull@]) == match res {
            Some(address) => Some(address@),
            None => None,
        },
{
    let mut seeds: Vec<Vec<u8>> = Vec::new();
    seeds.push(array_to_vec(&REWARD_VAULT_SEED));
    seeds.push(array_to_vec(&pull.bytes));
    assert(seed_bytes(seeds@) =~= seq![REWARD_VAULT_SEED@, pull@]);
    find_program_address(&seeds)
}

/// The seeds under which the program signs for a pull's escrow at its
/// creation: `reward_vault`, the pull's address, and the bump seed.
pub fn get_reward_vault_signer_seeds(pull: &Address, bump: u8) -> (seeds: Vec<Vec<u8>>)
    ensures
        seed_bytes(seeds@) == seq![REWARD_VAULT_SEED@, pull@, seq![bump]],
{
    let mut last: Vec<u8> = Vec::new();
    last.push(bump);
    let mut seeds: Vec<Vec<u8>> = Vec::new();
    seeds.push(array_to_vec(&REWARD_VAULT_SEED));
    seeds.push(array_to_vec(&pull.bytes));
    seeds.push(last);
    assert(seeds@[2]@ =~= seq![bump]);
    assert(seed_bytes(seeds@) =~= seq![REWARD_VAULT_SEED@, pull@, seq![bump]]);
    seeds
}

} // verus!
