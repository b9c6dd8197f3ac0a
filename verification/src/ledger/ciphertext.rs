//! Ciphertexts as the ledger encodes them, and their homomorphic difference.

use vstd::prelude::*;
use vstd::string::StringSliceAdditionalSpecFns;
use vstd::utf8::valid_utf8;
use std::str::FromStr;
use std::str::Utf8Error;
use spl_token_2022::solana_zk_sdk::encryption::pod::auth_encryption::PodAeCiphertext;
use spl_token_2022::solana_zk_sdk::encryption::pod::elgamal::PodElGamalCiphertext;
use spl_token_2022::solana_zk_sdk::errors::ParseError;
use spl_token_confidential_transfer_ciphertext_arithmetic::subtract;
use crate::error::GachaError;

verus! {

/// Why bytes are no text, as `std::str::from_utf8` reports it; carried
/// through unread.
#[verifier::external_type_specification]
#[verifier::external_body]
pub struct ExUtf8Error(Utf8Error);

/// Why a text is no ciphertext, as `solana_zk_sdk` reports it; carried
/// through unread.
#[verifier::external_type_specification]
#[verifier::external_body]
pub struct ExParseError(ParseError);

/// `std::str::from_utf8`: the bytes as text. It succeeds exactly on valid
/// UTF-8, and the text then holds the very bytes it was given.
#[verifier::external_body]
fn text_of(bytes: &[u8]) -> (res: Result<&str, Utf8Error>)
    ensures
        res is Ok <==> valid_utf8(bytes@),
        res matches Ok(text) ==> text.spec_bytes() == bytes@,
{
    std::str::from_utf8(bytes)
}

/// What `PodAeCiphertext::from_str` makes of a text: the thirty-six bytes
/// that it encodes in base64, or nothing.
pub uninterp spec fn ae_ciphertext_of_text(text: Seq<u8>) -> Option<Seq<u8>>;

/// `<PodAeCiphertext as FromStr>::from_str`: decodes a base64 text into an
/// authenticated-encryption ciphertext. The result depends on the text alone.
#[verifier::external_body]
fn parse_ae_ciphertext(text: &str) -> (res: Result<[u8; 36], ParseError>)
    ensures
        ae_ciphertext_of_text(text.spec_bytes()) == match res {
            Ok(bytes) => Some(bytes@),
            Err(_) => None,
        },
{
    let parsed = PodAeCiphertext::from_str(text)?;
    Ok(bytemuck::bytes_of(&parsed).try_into().unwrap())
}

/// What `PodElGamalCiphertext::from_str` makes of a text: the sixty-four
/// bytes that it encodes in base64, or nothing.
pub uninterp spec fn elgamal_ciphertext_of_text(text: Seq<u8>) -> Option<Seq<u8>>;

/// `<PodElGamalCiphertext as FromStr>::from_str`: decodes a base64 text into
/// an ElGamal ciphertext. The result depends on the text alone.
#[verifier::external_body]
fn parse_elgamal_ciphertext(text: &str) -> (res: Result<[u8; 64], ParseError>)
    ensures
        elgamal_ciphertext_of_text(text.spec_bytes()) == match res {
            Ok(bytes) => Some(bytes@),
            Err(_) => None,
        },
{
    PodElGamalCiphertext::from_str(text).map(bytemuck::cast)
}

/// The homomorphic difference `left - right` of two ElGamal ciphertexts as
/// `subtract` computes it; nothing where an operand holds no curve point.
pub uninterp spec fn ciphertext_difference(left: Seq<u8>, right: Seq<u8>) -> Option<Seq<u8>>;

/// `spl_token_confidential_transfer_ciphertext_arithmetic::subtract`: the
/// difference of two ciphertexts, component by component. The result depends
/// on the two operands alone.
#[verifier::external_body]
fn subtract_ciphertexts(left: &[u8; 64], right: &[u8; 64]) -> (res: Option<[u8; 64]>)
    ensures
        ciphertext_difference(left@, right@) == match res {
            Some(difference) => Some(difference@),
            None => None,
        },
{
    subtract(&PodElGamalCiphertext::from(*left), &PodElGamalCiphertext::from(*right))
        .map(bytemuck::cast)
}

/// The authenticated-encryption ciphertext that a raw field encodes: the
/// field must be valid UTF-8 and its text a base64 encoding of the right size.
pub open spec fn decryptable_balance_of(raw: Seq<u8>) -> Option<Seq<u8>> {
    if valid_utf8(raw) {
        ae_ciphertext_of_text(raw)
    } else {
        None
    }
}

/// The ElGamal ciphertext that a raw field encodes, likewise.
pub open spec fn encrypted_balance_of(raw: Seq<u8>) -> Option<Seq<u8>> {
    if valid_utf8(raw) {
        elgamal_ciphertext_of_text(raw)
    } else {
        None
    }
}

/// Decodes a decryptable-balance snapshot.
pub fn decode_decryptable_balance(raw: &[u8; 48]) -> (res: Result<[u8; 36], GachaError>)
    ensures
        match decryptable_balance_of(raw@) {
            Some(bytes) => res matches Ok(balance) && balance@ == bytes,
            None => res == Err::<[u8; 36], GachaError>(GachaError::DecryptableBalanceConversionFailed),
        },
{
    match text_of(raw.as_slice()) {
        Ok(text) => match parse_ae_ciphertext(text) {
            Ok(balance) => Ok(balance),
            Err(_) => Err(GachaError::DecryptableBalanceConversionFailed),
        },
        Err(_) => Err(GachaError::DecryptableBalanceConversionFailed),
    }
}

/// Decodes an encrypted balance or amount.
pub fn decode_encrypted_balance(raw: &[u8; 88]) -> (res: Result<[u8; 64], GachaError>)
    ensures
        match encrypted_balance_of(raw@) {
            Some(bytes) => res matches Ok(balance) && balance@ == bytes,
            None => res == Err::<[u8; 64], GachaError>(GachaError::CipherTextBalanceConversionFailed),
        },
{
    match text_of(raw.as_slice()) {
        Ok(text) => match parse_elgamal_ciphertext(text) {
            Ok(balance) => Ok(balance),
            Err(_) => Err(GachaError::CipherTextBalanceConversionFailed),
        },
        Err(_) => Err(GachaError::CipherTextBalanceConversionFailed),
    }
}

/// The remainder `available - committed` of two encrypted balances.
pub fn remainder(available: &[u8; 64], committed: &[u8; 64]) -> (res: Result<[u8; 64], GachaError>)
    ensures
        match ciphertext_difference(available@, committed@) {
            Some(bytes) => res matches Ok(rest) && rest@ == bytes,
            None => res == Err::<[u8; 64], GachaError>(GachaError::CiphertextArithmeticFailed),
        },
{
    match subtract_ciphertexts(available, committed) {
        Some(rest) => Ok(rest),
        None => Err(GachaError::CiphertextArithmeticFailed),
    }
}

} // verus!
