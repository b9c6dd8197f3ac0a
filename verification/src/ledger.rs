//! The boundary to the confidential ledger's own library: what it parses,
//! computes and builds for this protocol.

pub mod account;
pub mod certificate;
pub mod ciphertext;
pub mod instruction;
