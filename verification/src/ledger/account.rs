//! Reading the ledger's account records.

use vstd::prelude::*;
use anchor_lang::solana_program::program_error::ProgramError;
use spl_token_2022::extension::confidential_transfer::ConfidentialTransferAccount;
use spl_token_2022::extension::confidential_transfer::ConfidentialTransferMint;
use spl_token_2022::extension::BaseStateWithExtensions;
use spl_token_2022::extension::StateWithExtensions;
use spl_token_2022::state::Account;
use spl_token_2022::state::Mint;

verus! {

/// What this protocol reads of an escrow's confidential state.
#[derive(Debug, Clone, Copy, PartialEq, Eq)]
pub struct ConfidentialAccount {
    /// The key under which the balances are encrypted.
    pub elgamal_pubkey: [u8; 32],
    /// The available balance, encrypted.
    pub available_balance: [u8; 64],
    /// How many deposits and transfers have credited the pending balance.
    pub pending_balance_credit_counter: u64,
}

/// The confidential state that a token account's data holds, as
/// `StateWithExtensions::<Account>::unpack` and then
/// `get_extension::<ConfidentialTransferAccount>` read it; nothing where
/// either fails.
pub uninterp spec fn confidential_account_of(data: Seq<u8>) -> Option<ConfidentialAccount>;

/// `StateWithExtensions::<Account>::unpack` followed by
/// `get_extension::<ConfidentialTransferAccount>`: unpacks a token account
/// and finds its confidential-transfer extension. The result depends on the
/// data alone. The unpacked state borrows the data and is generic over
/// traits of the ledger's library, so it does not leave this function.
#[verifier::external_body]
pub(crate) fn read_confidential_account(data: &[u8]) -> (res: Result<ConfidentialAccount, ProgramError>)
    ensures
        confidential_account_of(data@) == match res {
            Ok(account) => Some(account),
            Err(_) => None,
        },
{
    let state = StateWithExtensions::<Account>::unpack(data)?;
    let extension = state.get_extension::<ConfidentialTransferAccount>()?;
    Ok(ConfidentialAccount {
        elgamal_pubkey: bytemuck::cast(extension.elgamal_pubkey),
        available_balance: bytemuck::cast(extension.available_balance),
        pending_balance_credit_counter: extension.pending_balance_credit_counter.into(),
    })
}

/// Whether a mint's data carries the confidential-transfer extension, as
/// `StateWithExtensions::<Mint>::unpack` and then
/// `get_extension::<ConfidentialTransferMint>` find; nothing where the data
/// does not unpack as a mint.
pub uninterp spec fn mint_confidential_support(data: Seq<u8>) -> Option<bool>;

/// `StateWithExtensions::<Mint>::unpack` followed by
/// `get_extension::<ConfidentialTransferMint>`: unpacks a mint and looks for
/// its confidential-transfer extension. The result depends on the data
/// alone. The unpacked state does not leave this function either.
#[verifier::external_body]
pub(crate) fn read_mint_confidential_support(data: &[u8]) -> (res: Result<bool, ProgramError>)
    ensures
        mint_confidential_support(data@) == match res {
            Ok(supported) => Some(supported),
            Err(_) => None,
        },
{
    let state = StateWithExtensions::<Mint>::unpack(data)?;
    Ok(state.get_extension::<ConfidentialTransferMint>().is_ok())
}

} // verus!
