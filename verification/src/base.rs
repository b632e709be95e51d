//! The base message schema: the commands and queries of the token itself,
//! without the marketing extension.

use vstd::prelude::*;
use crate::batch::{
    BurnFromAction, MintAction, SendAction, SendFromAction, TransferAction, TransferFromAction,
};
use crate::permit::Permit;

verus! {

/// Whether a command was carried out.
#[derive(Clone, Copy, Debug, PartialEq, Eq, Structural)]
pub enum ResponseStatus {
    Success,
    Failure,
}

/// How much of the contract is switched off.
#[derive(Clone, Copy, Debug, PartialEq, Eq, Structural)]
pub enum ContractStatusLevel {
    NormalRun,
    StopAllButRedeems,
    StopAll,
}

/// A balance that an account holds from the start.
#[derive(Clone, Debug, PartialEq, Eq)]
pub struct InitialBalance {
    pub address: String,
    pub amount: u128,
}

/// The optional switches of a token. A switch left out counts as off.
#[derive(Clone, Copy, Debug, PartialEq, Eq, Structural)]
pub struct InitConfig {
    pub public_total_supply: Option<bool>,
    pub enable_deposit: Option<bool>,
    pub enable_redeem: Option<bool>,
    pub enable_mint: Option<bool>,
    pub enable_burn: Option<bool>,
}

/// The initialization message of the base schema.
#[derive(Clone, Debug, PartialEq, Eq)]
pub struct InitMsg {
    pub name: String,
    pub admin: Option<String>,
    pub symbol: String,
    pub decimals: u8,
    pub initial_balances: Option<Vec<InitialBalance>>,
    pub prng_seed: Vec<u8>,
    pub config: Option<InitConfig>,
}

/// The state-changing commands of the base schema.
#[derive(Clone, Debug, PartialEq, Eq)]
pub enum HandleMsg {
    Redeem { amount: u128, denom: Option<String>, padding: Option<String> },
    Deposit { padding: Option<String> },
    Transfer { recipient: String, amount: u128, memo: Option<String>, padding: Option<String> },
    Send {
        recipient: String,
        recipient_code_hash: Option<String>,
        amount: u128,
        msg: Option<Vec<u8>>,
        memo: Option<String>,
        padding: Option<String>,
    },
    BatchTransfer { actions: Vec<TransferAction>, padding: Option<String> },
    BatchSend { actions: Vec<SendAction>, padding: Option<String> },
    Burn { amount: u128, memo: Option<String>, padding: Option<String> },
    RegisterReceive { code_hash: String, padding: Option<String> },
    CreateViewingKey { entropy: String, padding: Option<String> },
    SetViewingKey { key: String, padding: Option<String> },
    IncreaseAllowance {
        spender: String,
        amount: u128,
        expiration: Option<u64>,
        padding: Option<String>,
    },
    DecreaseAllowance {
        spender: String,
        amount: u128,
        expiration: Option<u64>,
        padding: Option<String>,
    },
    TransferFrom {
        owner: String,
        recipient: String,
        amount: u128,
        memo: Option<String>,
        padding: Option<String>,
    },
    SendFrom {
        owner: String,
        recipient: String,
        recipient_code_hash: Option<String>,
        amount: u128,
        msg: Option<Vec<u8>>,
        memo: Option<String>,
        padding: Option<String>,
    },
    BatchTransferFrom { actions: Vec<TransferFromAction>, padding: Option<String> },
    BatchSendFrom { actions: Vec<SendFromAction>, padding: Option<String> },
    BurnFrom { owner: String, amount: u128, memo: Option<String>, padding: Option<String> },
    BatchBurnFrom { actions: Vec<BurnFromAction>, padding: Option<String> },
    Mint { recipient: String, amount: u128, memo: Option<String>, padding: Option<String> },
    BatchMint { actions: Vec<MintAction>, padding: Option<String> },
    AddMinters { minters: Vec<String>, padding: Option<String> },
    RemoveMinters { minters: Vec<String>, padding: Option<String> },
    SetMinters { minters: Vec<String>, padding: Option<String> },
    ChangeAdmin { address: String, padding: Option<String> },
    SetContractStatus { level: ContractStatusLevel, padding: Option<String> },
    RevokePermit { permit_name: String, padding: Option<String> },
}

/// A query that a permit stands for: the account is the one that signed the permit.
#[derive(Clone, Debug, PartialEq, Eq)]
pub enum QueryWithPermit {
    Allowance { owner: String, spender: String },
    Balance {},
    TransferHistory { page: Option<u32>, page_size: u32 },
    TransactionHistory { page: Option<u32>, page_size: u32 },
}

/// The read-only queries of the base schema.
#[derive(Clone, Debug, PartialEq, Eq)]
pub enum QueryMsg {
    TokenInfo {},
    TokenConfig {},
    ContractStatus {},
    ExchangeRate {},
    Allowance { owner: String, spender: String, key: String },
    Balance { address: String, key: String },
    TransferHistory { address: String, key: String, page: Option<u32>, page_size: u32 },
    TransactionHistory { address: String, key: String, page: Option<u32>, page_size: u32 },
    Minters {},
    WithPermit { permit: Permit, query: QueryWithPermit },
}

} // verus!
