//! The extended message schema: the base schema plus the marketing record.

use vstd::prelude::*;
use crate::base;
use crate::base::{ContractStatusLevel, InitConfig, InitialBalance, QueryWithPermit, ResponseStatus};
use crate::batch::{
    BurnFromAction, MintAction, SendAction, SendFromAction, TransferAction, TransferFromAction,
};
use crate::error::ContractError;
use crate::permit::Permit;
use crate::transaction_history::{RichTx, Tx};
use crate::viewing_key::ViewingKey;

verus! {

/// The largest embedded logo that is accepted, in bytes.
pub const LOGO_SIZE_CAP: usize = 5120;

/// A logo stored with the token, tagged by its format.
#[derive(Debug, PartialEq, Eq)]
pub enum EmbeddedLogo {
    /// The logo as an SVG document.
    Svg(Vec<u8>),
    /// The logo as a PNG file.
    Png(Vec<u8>),
}

/// The content of an `EmbeddedLogo`.
pub enum EmbeddedLogoView {
    Svg(Seq<u8>),
    Png(Seq<u8>),
}

impl EmbeddedLogoView {
    /// An embedded logo is well formed when it is no larger than the cap.
    /// What the bytes hold is not looked at.
    pub open spec fn is_valid(self) -> bool {
        match self {
            EmbeddedLogoView::Svg(data) => data.len() <= LOGO_SIZE_CAP,
            EmbeddedLogoView::Png(data) => data.len() <= LOGO_SIZE_CAP,
        }
    }
}

impl View for EmbeddedLogo {
    type V = EmbeddedLogoView;

    open spec fn view(&self) -> EmbeddedLogoView {
        match self {
            EmbeddedLogo::Svg(data) => EmbeddedLogoView::Svg(data@),
            EmbeddedLogo::Png(data) => EmbeddedLogoView::Png(data@),
        }
    }
}

impl Clone for EmbeddedLogo {
    fn clone(&self) -> (copy: Self)
        ensures
            copy@ == self@,
    {
        match self {
            EmbeddedLogo::Svg(data) => EmbeddedLogo::Svg(data.clone()),
            EmbeddedLogo::Png(data) => EmbeddedLogo::Png(data.clone()),
        }
    }
}

impl EmbeddedLogo {
    /// Whether the logo is no larger than the cap.
    pub fn is_valid(&self) -> (ok: bool)
        ensures
            ok == self@.is_valid(),
    {
        match self {
            EmbeddedLogo::Svg(data) => data.len() <= LOGO_SIZE_CAP,
            EmbeddedLogo::Png(data) => data.len() <= LOGO_SIZE_CAP,
        }
    }
}

/// A logo: a link to one hosted elsewhere, or one stored with the token.
#[derive(Debug, PartialEq, Eq)]
pub enum Logo {
    /// The address of an externally hosted logo. It is taken as it is.
    Url(String),
    /// A logo stored with the token, at most `LOGO_SIZE_CAP` bytes long.
    Embedded(EmbeddedLogo),
}

/// The content of a `Logo`.
pub enum LogoView {
    Url(Seq<char>),
    Embedded(EmbeddedLogoView),
}

impl LogoView {
    /// Every link is well formed, and an embedded logo when
    /// `EmbeddedLogoView::is_valid` holds of it.
    pub open spec fn is_valid(self) -> bool {
        match self {
            LogoView::Url(_) => true,
            LogoView::Embedded(logo) => logo.is_valid(),
        }
    }
}

impl View for Logo {
    type V = LogoView;

    open spec fn view(&self) -> LogoView {
        match self {
            Logo::Url(url) => LogoView::Url(url@),
            Logo::Embedded(logo) => LogoView::Embedded(logo@),
        }
    }
}

impl Clone for Logo {
    fn clone(&self) -> (copy: Self)
        ensures
            copy@ == self@,
    {
        match self {
            Logo::Url(url) => Logo::Url(url.clone()),
            Logo::Embedded(logo) => Logo::Embedded(logo.clone()),
        }
    }
}

impl Logo {
    /// Whether the logo is well formed.
    pub fn is_valid(&self) -> (ok: bool)
        ensures
            ok == self@.is_valid(),
    {
        match self {
            Logo::Url(_) => true,
            Logo::Embedded(logo) => logo.is_valid(),
        }
    }
}

/// The public description of a token project. It is replaced as a whole,
/// never field by field.
#[derive(Debug, PartialEq, Eq)]
pub struct MarketingInfo {
    pub project: Option<String>,
    pub description: Option<String>,
    pub marketing: Option<String>,
    pub logo: Option<Logo>,
}

/// The content of a `MarketingInfo`.
pub struct MarketingInfoView {
    pub project: Option<Seq<char>>,
    pub description: Option<Seq<char>>,
    pub marketing: Option<Seq<char>>,
    pub logo: Option<LogoView>,
}

impl MarketingInfoView {
    /// A record is well formed when its logo, if it has one, is.
    pub open spec fn is_valid(self) -> bool {
        match self.logo {
            Some(logo) => logo.is_valid(),
            None => true,
        }
    }
}

/// The content of an optional text.
pub open spec fn text_view(text: Option<String>) -> Option<Seq<char>> {
    match text {
        Some(t) => Some(t@),
        None => None,
    }
}

impl View for MarketingInfo {
    type V = MarketingInfoView;

    open spec fn view(&self) -> MarketingInfoView {
        MarketingInfoView {
            project: text_view(self.project),
            description: text_view(self.description),
            marketing: text_view(self.marketing),
            logo: match self.logo {
                Some(logo) => Some(logo@),
                None => None,
            },
        }
    }
}

impl Clone for MarketingInfo {
    fn clone(&self) -> (copy: Self)
        ensures
            copy@ == self@,
    {
        MarketingInfo {
            project: self.project.clone(),
            description: self.description.clone(),
            marketing: self.marketing.clone(),
            logo: match &self.logo {
                Some(logo) => Some(logo.clone()),
                None => None,
            },
        }
    }
}

impl MarketingInfo {
    /// Accepts a well-formed record and refuses any other as invalid input.
    pub fn validate(&self) -> (checked: Result<(), ContractError>)
        ensures
            self@.is_valid() ==> checked == Ok::<(), ContractError>(()),
            !self@.is_valid() ==> checked == Err::<(), ContractError>(ContractError::InvalidInput),
    {
        match &self.logo {
            Some(logo) => {
                if logo.is_valid() {
                    Ok(())
                } else {
                    Err(ContractError::InvalidInput)
                }
            },
            None => Ok(()),
        }
    }
}

/// The content of an optional record.
pub open spec fn info_view(info: Option<MarketingInfo>) -> Option<MarketingInfoView> {
    match info {
        Some(record) => Some(record@),
        None => None,
    }
}

/// The initialization message: that of the base schema, and the marketing
/// record to start with, if there is one.
#[derive(Clone, Debug, PartialEq, Eq)]
pub struct InitMsg {
    pub name: String,
    pub admin: Option<String>,
    pub symbol: String,
    pub decimals: u8,
    pub initial_balances: Option<Vec<InitialBalance>>,
    pub prng_seed: Vec<u8>,
    pub config: Option<InitConfig>,
    pub marketing_info: Option<MarketingInfo>,
}

impl From<InitMsg> for base::InitMsg {
    /// The message without its marketing record.
    fn from(msg: InitMsg) -> (converted: base::InitMsg) {
        base::InitMsg {
            name: msg.name,
            admin: msg.admin,
            symbol: msg.symbol,
            decimals: msg.decimals,
            initial_balances: msg.initial_balances,
            prng_seed: msg.prng_seed,
            config: msg.config,
        }
    }
}

impl vstd::std_specs::convert::FromSpecImpl<InitMsg> for base::InitMsg {
    open spec fn obeys_from_spec() -> bool {
        true
    }

    /// Every field but the marketing record is carried over as it is.
    open spec fn from_spec(msg: InitMsg) -> base::InitMsg {
        base::InitMsg {
            name: msg.name,
            admin: msg.admin,
            symbol: msg.symbol,
            decimals: msg.decimals,
            initial_balances: msg.initial_balances,
            prng_seed: msg.prng_seed,
            config: msg.config,
        }
    }
}

/// The state-changing commands: those of the base schema, and the one that
/// replaces the marketing record.
#[derive(Clone, Debug, PartialEq, Eq)]
pub enum HandleMsg {
    Redeem { amount: u128, denom: Option<String>, padding: Option<String> },
    Deposit { padding: Option<String> },
    Transfer { recipient: String, amount: u128, memo: Option<String>, padding: Option<String> },
    Send { recipient: String, recipient_code_hash: Option<String>, amount: u128, msg: Option<Vec<u8>>, memo: Option<String>, padding: Option<String> },
    BatchTransfer { actions: Vec<TransferAction>, padding: Option<String> },
    BatchSend { actions: Vec<SendAction>, padding: Option<String> },
    Burn { amount: u128, memo: Option<String>, padding: Option<String> },
    RegisterReceive { code_hash: String, padding: Option<String> },
    CreateViewingKey { entropy: String, padding: Option<String> },
    SetViewingKey { key: String, padding: Option<String> },
    IncreaseAllowance { spender: String, amount: u128, expiration: Option<u64>, padding: Option<String> },
    DecreaseAllowance { spender: String, amount: u128, expiration: Option<u64>, padding: Option<String> },
    TransferFrom { owner: String, recipient: String, amount: u128, memo: Option<String>, padding: Option<String> },
    SendFrom { owner: String, recipient: String, recipient_code_hash: Option<String>, amount: u128, msg: Option<Vec<u8>>, memo: Option<String>, padding: Option<String> },
    BatchTransferFrom { actions: Vec<TransferFromAction>, padding: Option<String> },
    BatchSendFrom { actions: Vec<SendFromAction>, padding: Option<String> },
    BurnFrom { owner: String, amount: u128, memo: Option<String>, padding: Option<String> },
    BatchBurnFrom { actions: Vec<BurnFromAction>, padding: Option<String> },
    Mint { recipient: String, amount: u128, memo: Option<String>, padding: Option<String> },
    BatchMint { actions: Vec<MintAction>, padding: Option<String> },
    AddMinters { minters: Vec<String>, padding: Option<String> },
    RemoveMinters { minters: Vec<String>, padding: Option<String> },
    SetMinters { minters: Vec<String>, padding: Option<String> },
    ChangeAdmin { address: String, padding: Option<String> },
    SetContractStatus { level: ContractStatusLevel, padding: Option<String> },
    RevokePermit { permit_name: String, padding: Option<String> },
    SetMarketingInfo { marketing_info: Option<MarketingInfo>, padding: Option<String> },
}

impl HandleMsg {
    /// True of the one command that the base schema lacks.
    pub open spec fn is_extension(self) -> bool {
        self is SetMarketingInfo
    }
}

impl TryFrom<HandleMsg> for base::HandleMsg {
    type Error = ContractError;

    /// The same command in the base schema. The command that replaces the
    /// marketing record has none there and is refused.
    fn try_from(msg: HandleMsg) -> (converted: Result<base::HandleMsg, ContractError>) {
        match msg {
            HandleMsg::Redeem { amount, denom, padding } => Ok(base::HandleMsg::Redeem { amount, denom, padding }),
            HandleMsg::Deposit { padding } => Ok(base::HandleMsg::Deposit { padding }),
            HandleMsg::Transfer { recipient, amount, memo, padding } => Ok(base::HandleMsg::Transfer { recipient, amount, memo, padding }),
            HandleMsg::Send { recipient, recipient_code_hash, amount, msg, memo, padding } => Ok(base::HandleMsg::Send { recipient, recipient_code_hash, amount, msg, memo, padding }),
            HandleMsg::BatchTransfer { actions, padding } => Ok(base::HandleMsg::BatchTransfer { actions, padding }),
            HandleMsg::BatchSend { actions, padding } => Ok(base::HandleMsg::BatchSend { actions, padding }),
            HandleMsg::Burn { amount, memo, padding } => Ok(base::HandleMsg::Burn { amount, memo, padding }),
            HandleMsg::RegisterReceive { code_hash, padding } => Ok(base::HandleMsg::RegisterReceive { code_hash, padding }),
            HandleMsg::CreateViewingKey { entropy, padding } => Ok(base::HandleMsg::CreateViewingKey { entropy, padding }),
            HandleMsg::SetViewingKey { key, padding } => Ok(base::HandleMsg::SetViewingKey { key, padding }),
            HandleMsg::IncreaseAllowance { spender, amount, expiration, padding } => Ok(base::HandleMsg::IncreaseAllowance { spender, amount, expiration, padding }),
            HandleMsg::DecreaseAllowance { spender, amount, expiration, padding } => Ok(base::HandleMsg::DecreaseAllowance { spender, amount, expiration, padding }),
            HandleMsg::TransferFrom { owner, recipient, amount, memo, padding } => Ok(base::HandleMsg::TransferFrom { owner, recipient, amount, memo, padding }),
            HandleMsg::SendFrom { owner, recipient, recipient_code_hash, amount, msg, memo, padding } => Ok(base::HandleMsg::SendFrom { owner, recipient, recipient_code_hash, amount, msg, memo, padding }),
            HandleMsg::BatchTransferFrom { actions, padding } => Ok(base::HandleMsg::BatchTransferFrom { actions, padding }),
            HandleMsg::BatchSendFrom { actions, padding } => Ok(base::HandleMsg::BatchSendFrom { actions, padding }),
            HandleMsg::BurnFrom { owner, amount, memo, padding } => Ok(base::HandleMsg::BurnFrom { owner, amount, memo, padding }),
            HandleMsg::BatchBurnFrom { actions, padding } => Ok(base::HandleMsg::BatchBurnFrom { actions, padding }),
            HandleMsg::Mint { recipient, amount, memo, padding } => Ok(base::HandleMsg::Mint { recipient, amount, memo, padding }),
            HandleMsg::BatchMint { actions, padding } => Ok(base::HandleMsg::BatchMint { actions, padding }),
            HandleMsg::AddMinters { minters, padding } => Ok(base::HandleMsg::AddMinters { minters, padding }),
            HandleMsg::RemoveMinters { minters, padding } => Ok(base::HandleMsg::RemoveMinters { minters, padding }),
            HandleMsg::SetMinters { minters, padding } => Ok(base::HandleMsg::SetMinters { minters, padding }),
            HandleMsg::ChangeAdmin { address, padding } => Ok(base::HandleMsg::ChangeAdmin { address, padding }),
            HandleMsg::SetContractStatus { level, padding } => Ok(base::HandleMsg::SetContractStatus { level, padding }),
            HandleMsg::RevokePermit { permit_name, padding } => Ok(base::HandleMsg::RevokePermit { permit_name, padding }),
            HandleMsg::SetMarketingInfo { .. } => Err(ContractError::Unconvertible),
        }
    }
}

impl vstd::std_specs::convert::TryFromSpecImpl<HandleMsg> for base::HandleMsg {
    open spec fn obeys_try_from_spec() -> bool {
        true
    }

    /// A command of the base schema keeps its name and every field; the
    /// extension's own command is `Unconvertible`.
    open spec fn try_from_spec(msg: HandleMsg) -> Result<base::HandleMsg, ContractError> {
        match msg {
            HandleMsg::Redeem { amount, denom, padding } => Ok(base::HandleMsg::Redeem { amount, denom, padding }),
            HandleMsg::Deposit { padding } => Ok(base::HandleMsg::Deposit { padding }),
            HandleMsg::Transfer { recipient, amount, memo, padding } => Ok(base::HandleMsg::Transfer { recipient, amount, memo, padding }),
            HandleMsg::Send { recipient, recipient_code_hash, amount, msg, memo, padding } => Ok(base::HandleMsg::Send { recipient, recipient_code_hash, amount, msg, memo, padding }),
            HandleMsg::BatchTransfer { actions, padding } => Ok(base::HandleMsg::BatchTransfer { actions, padding }),
            HandleMsg::BatchSend { actions, padding } => Ok(base::HandleMsg::BatchSend { actions, padding }),
            HandleMsg::Burn { amount, memo, padding } => Ok(base::HandleMsg::Burn { amount, memo, padding }),
            HandleMsg::RegisterReceive { code_hash, padding } => Ok(base::HandleMsg::RegisterReceive { code_hash, padding }),
            HandleMsg::CreateViewingKey { entropy, padding } => Ok(base::HandleMsg::CreateViewingKey { entropy, padding }),
            HandleMsg::SetViewingKey { key, padding } => Ok(base::HandleMsg::SetViewingKey { key, padding }),
            HandleMsg::IncreaseAllowance { spender, amount, expiration, padding } => Ok(base::HandleMsg::IncreaseAllowance { spender, amount, expiration, padding }),
            HandleMsg::DecreaseAllowance { spender, amount, expiration, padding } => Ok(base::HandleMsg::DecreaseAllowance { spender, amount, expiration, padding }),
            HandleMsg::TransferFrom { owner, recipient, amount, memo, padding } => Ok(base::HandleMsg::TransferFrom { owner, recipient, amount, memo, padding }),
            HandleMsg::SendFrom { owner, recipient, recipient_code_hash, amount, msg, memo, padding } => Ok(base::HandleMsg::SendFrom { owner, recipient, recipient_code_hash, amount, msg, memo, padding }),
            HandleMsg::BatchTransferFrom { actions, padding } => Ok(base::HandleMsg::BatchTransferFrom { actions, padding }),
            HandleMsg::BatchSendFrom { actions, padding } => Ok(base::HandleMsg::BatchSendFrom { actions, padding }),
            HandleMsg::BurnFrom { owner, amount, memo, padding } => Ok(base::HandleMsg::BurnFrom { owner, amount, memo, padding }),
            HandleMsg::BatchBurnFrom { actions, padding } => Ok(base::HandleMsg::BatchBurnFrom { actions, padding }),
            HandleMsg::Mint { recipient, amount, memo, padding } => Ok(base::HandleMsg::Mint { recipient, amount, memo, padding }),
            HandleMsg::BatchMint { actions, padding } => Ok(base::HandleMsg::BatchMint { actions, padding }),
            HandleMsg::AddMinters { minters, padding } => Ok(base::HandleMsg::AddMinters { minters, padding }),
            HandleMsg::RemoveMinters { minters, padding } => Ok(base::HandleMsg::RemoveMinters { minters, padding }),
            HandleMsg::SetMinters { minters, padding } => Ok(base::HandleMsg::SetMinters { minters, padding }),
            HandleMsg::ChangeAdmin { address, padding } => Ok(base::HandleMsg::ChangeAdmin { address, padding }),
            HandleMsg::SetContractStatus { level, padding } => Ok(base::HandleMsg::SetContractStatus { level, padding }),
            HandleMsg::RevokePermit { permit_name, padding } => Ok(base::HandleMsg::RevokePermit { permit_name, padding }),
            HandleMsg::SetMarketingInfo { .. } => Err(ContractError::Unconvertible),
        }
    }
}

/// A command has a form in the base schema if and only if it is not the
/// extension's own, and the one that has none is refused as `Unconvertible`.
pub proof fn lemma_handle_msg_converts_unless_extension(msg: HandleMsg)
    ensures
        <base::HandleMsg as vstd::std_specs::convert::TryFromSpec<HandleMsg>>::try_from_spec(msg)
            is Ok <==> !msg.is_extension(),
        msg.is_extension() ==> <base::HandleMsg as vstd::std_specs::convert::TryFromSpec<
            HandleMsg,
        >>::try_from_spec(msg) == Err::<base::HandleMsg, ContractError>(
            ContractError::Unconvertible,
        ),
{
}

/// What a command answers when it was carried out.
#[derive(Clone, Debug, PartialEq, Eq)]
pub enum HandleAnswer {
    Deposit { status: ResponseStatus },
    Redeem { status: ResponseStatus },
    Transfer { status: ResponseStatus },
    Send { status: ResponseStatus },
    BatchTransfer { status: ResponseStatus },
    BatchSend { status: ResponseStatus },
    Burn { status: ResponseStatus },
    RegisterReceive { status: ResponseStatus },
    CreateViewingKey { key: ViewingKey },
    SetViewingKey { status: ResponseStatus },
    IncreaseAllowance { spender: String, owner: String, allowance: u128 },
    DecreaseAllowance { spender: String, owner: String, allowance: u128 },
    TransferFrom { status: ResponseStatus },
    SendFrom { status: ResponseStatus },
    BatchTransferFrom { status: ResponseStatus },
    BatchSendFrom { status: ResponseStatus },
    BurnFrom { status: ResponseStatus },
    BatchBurnFrom { status: ResponseStatus },
    Mint { status: ResponseStatus },
    BatchMint { status: ResponseStatus },
    AddMinters { status: ResponseStatus },
    RemoveMinters { status: ResponseStatus },
    SetMinters { status: ResponseStatus },
    ChangeAdmin { status: ResponseStatus },
    SetContractStatus { status: ResponseStatus },
    RevokePermit { status: ResponseStatus },
    SetMarketingInfo { status: ResponseStatus },
}

/// The read-only queries: those of the base schema, and the one that reads
/// the marketing record.
#[derive(Clone, Debug, PartialEq, Eq)]
pub enum QueryMsg {
    TokenInfo {},
    TokenConfig {},
    ContractStatus {},
    ExchangeRate {},
    Allowance { owner: String, spender: String, key: String },
    Balance { address: String, key: String },
    TransferHistory { address: String, key: String, page: Option<u32>, page_size: u32 },
    TransactionHistory { address: String, key: String, page: Option<u32>, page_size: u32 },
    Minters {},
    WithPermit { permit: Permit, query: QueryWithPermit },
    MarketingInfo {},
}

impl QueryMsg {
    /// True of the one query that the base schema lacks.
    pub open spec fn is_extension(self) -> bool {
        self is MarketingInfo
    }
}

impl TryFrom<QueryMsg> for base::QueryMsg {
    type Error = ContractError;

    /// The same query in the base schema. The query for the marketing record
    /// has none there and is refused.
    fn try_from(msg: QueryMsg) -> (converted: Result<base::QueryMsg, ContractError>) {
        match msg {
            QueryMsg::TokenInfo {} => Ok(base::QueryMsg::TokenInfo {}),
            QueryMsg::TokenConfig {} => Ok(base::QueryMsg::TokenConfig {}),
            QueryMsg::ContractStatus {} => Ok(base::QueryMsg::ContractStatus {}),
            QueryMsg::ExchangeRate {} => Ok(base::QueryMsg::ExchangeRate {}),
            QueryMsg::Allowance { owner, spender, key } => Ok(
                base::QueryMsg::Allowance { owner, spender, key },
            ),
            QueryMsg::Balance { address, key } => Ok(base::QueryMsg::Balance { address, key }),
            QueryMsg::TransferHistory { address, key, page, page_size } => Ok(
                base::QueryMsg::TransferHistory { address, key, page, page_size },
            ),
            QueryMsg::TransactionHistory { address, key, page, page_size } => Ok(
                base::QueryMsg::TransactionHistory { address, key, page, page_size },
            ),
            QueryMsg::Minters {} => Ok(base::QueryMsg::Minters {}),
            QueryMsg::WithPermit { permit, query } => Ok(
                base::QueryMsg::WithPermit { permit, query },
            ),
            QueryMsg::MarketingInfo {} => Err(ContractError::Unconvertible),
        }
    }
}

impl vstd::std_specs::convert::TryFromSpecImpl<QueryMsg> for base::QueryMsg {
    open spec fn obeys_try_from_spec() -> bool {
        true
    }

    /// A query of the base schema keeps its name and every field; the
    /// extension's own query is `Unconvertible`.
    open spec fn try_from_spec(msg: QueryMsg) -> Result<base::QueryMsg, ContractError> {
        match msg {
            QueryMsg::TokenInfo {} => Ok(base::QueryMsg::TokenInfo {}),
            QueryMsg::TokenConfig {} => Ok(base::QueryMsg::TokenConfig {}),
            QueryMsg::ContractStatus {} => Ok(base::QueryMsg::ContractStatus {}),
            QueryMsg::ExchangeRate {} => Ok(base::QueryMsg::ExchangeRate {}),
            QueryMsg::Allowance { owner, spender, key } => Ok(
                base::QueryMsg::Allowance { owner, spender, key },
            ),
            QueryMsg::Balance { address, key } => Ok(base::QueryMsg::Balance { address, key }),
            QueryMsg::TransferHistory { address, key, page, page_size } => Ok(
                base::QueryMsg::TransferHistory { address, key, page, page_size },
            ),
            QueryMsg::TransactionHistory { address, key, page, page_size } => Ok(
                base::QueryMsg::TransactionHistory { address, key, page, page_size },
            ),
            QueryMsg::Minters {} => Ok(base::QueryMsg::Minters {}),
            QueryMsg::WithPermit { permit, query } => Ok(
                base::QueryMsg::WithPermit { permit, query },
            ),
            QueryMsg::MarketingInfo {} => Err(ContractError::Unconvertible),
        }
    }
}

/// A query has a form in the base schema if and only if it is not the
/// extension's own, and the one that has none is refused as `Unconvertible`.
pub proof fn lemma_query_msg_converts_unless_extension(msg: QueryMsg)
    ensures
        <base::QueryMsg as vstd::std_specs::convert::TryFromSpec<QueryMsg>>::try_from_spec(msg)
            is Ok <==> !msg.is_extension(),
        msg.is_extension() ==> <base::QueryMsg as vstd::std_specs::convert::TryFromSpec<
            QueryMsg,
        >>::try_from_spec(msg) == Err::<base::QueryMsg, ContractError>(
            ContractError::Unconvertible,
        ),
{
}

/// What a query answers.
#[derive(Clone, Debug, PartialEq, Eq)]
pub enum QueryAnswer {
    TokenInfo { name: String, symbol: String, decimals: u8, total_supply: Option<u128> },
    TokenConfig {
        public_total_supply: bool,
        deposit_enabled: bool,
        redeem_enabled: bool,
        mint_enabled: bool,
        burn_enabled: bool,
    },
    ContractStatus { status: ContractStatusLevel },
    ExchangeRate { rate: u128, denom: String },
    Allowance { spender: String, owner: String, allowance: u128, expiration: Option<u64> },
    Balance { amount: u128 },
    TransferHistory { txs: Vec<Tx>, total: Option<u64> },
    TransactionHistory { txs: Vec<RichTx>, total: Option<u64> },
    ViewingKeyError { msg: String },
    Minters { minters: Vec<String> },
    MarketingInfo { marketing_info: Option<MarketingInfo> },
}

} // verus!
