//! The entries of the batch commands: one action per transfer, send, mint or burn.

use vstd::prelude::*;

verus! {

/// One transfer of a batch, from the sender of the message.
#[derive(Clone, Debug, PartialEq, Eq)]
pub struct TransferAction {
    pub recipient: String,
    pub amount: u128,
    pub memo: Option<String>,
}

/// One send of a batch: a transfer that also notifies the recipient contract.
#[derive(Clone, Debug, PartialEq, Eq)]
pub struct SendAction {
    pub recipient: String,
    pub recipient_code_hash: Option<String>,
    pub amount: u128,
    pub msg: Option<Vec<u8>>,
    pub memo: Option<String>,
}

/// One transfer of a batch that spends an allowance granted by `owner`.
#[derive(Clone, Debug, PartialEq, Eq)]
pub struct TransferFromAction {
    pub owner: String,
    pub recipient: String,
    pub amount: u128,
    pub memo: Option<String>,
}

/// One send of a batch that spends an allowance granted by `owner`.
#[derive(Clone, Debug, PartialEq, Eq)]
pub struct SendFromAction {
    pub owner: String,
    pub recipient: String,
    pub recipient_code_hash: Option<String>,
    pub amount: u128,
    pub msg: Option<Vec<u8>>,
    pub memo: Option<String>,
}

/// One mint of a batch.
#[derive(Clone, Debug, PartialEq, Eq)]
pub struct MintAction {
    pub recipient: String,
    pub amount: u128,
    pub memo: Option<String>,
}

/// One burn of a batch that spends an allowance granted by `owner`.
#[derive(Clone, Debug, PartialEq, Eq)]
pub struct BurnFromAction {
    pub owner: String,
    pub amount: u128,
    pub memo: Option<String>,
}

} // verus!
