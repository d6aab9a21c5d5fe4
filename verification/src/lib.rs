//! State-transition core of a token presale: instruction decoding, account
//! validation, and the financial rules that govern contributions and payouts.
//!
//! The ledger platform hands every instruction a program identifier, an
//! ordered list of accounts (each a plain record of address, owner, signer
//! flag, balance and byte buffer) and an opaque payload. This crate decodes
//! the payload, validates the accounts, applies the business rules, and
//! rewrites the two persisted record types in place. Platform-side work —
//! account funding, cross-program token movement, signature verification —
//! stays outside; where a handler needs a token movement it returns the
//! request for the caller to perform.

pub mod accounts;
pub mod buy;
pub mod codec;
pub mod distribute;
pub mod errors;
pub mod guards;
pub mod instruction;
pub mod laws;
pub mod lifecycle;
pub mod platform;
pub mod processor;
pub mod whitelist;

