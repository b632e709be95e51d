//! A privacy-preserving fungible token with a public marketing record.
//!
//! The token keeps balances, allowances, a transaction log and viewing keys,
//! and answers queries about an account only to a caller who presents the
//! account's viewing key or a permit signed by it. Beside the token stands
//! one optional marketing record, which anyone may read.
//!
//! - `ledger`, `allowance`, `transaction_history`, `viewing_key` and `permit`
//!   hold the parts of the token, and `token` puts them together. `token` is
//!   not reached from `contract`: a command or query that `contract` hands on
//!   is carried out by whoever receives it, not on a `Token` of this library.
//! - `marketing_info` holds the marketing record.
//! - `msg` is the message schema with the marketing record, `base` the one
//!   without it, and `contract` decides for each message whether it is
//!   answered from the marketing record or handed on in the base schema.
//! - `crypto` names the hash and the encoding that come from outside.

pub mod allowance;
mod assoc;
pub mod base;
pub mod batch;
pub mod contract;
pub mod crypto;
pub mod error;
pub mod ledger;
pub mod marketing_info;
pub mod msg;
pub mod permit;
pub mod token;
pub mod transaction_history;
pub mod viewing_key;
