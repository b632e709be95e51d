//! The entry points: each message is either answered from the marketing
//! record or handed on, in the base schema, to the token itself.

use vstd::prelude::*;
use vstd::std_specs::convert::{FromSpec, TryFromSpec};
use crate::base;
use crate::error::ContractError;
use crate::marketing_info::{
    acceptable, handle_set_marketing_info, init_marketing_info, query_marketing_info, replaced,
    set_marketing_info_answer, published, MarketingStore,
};
use crate::msg::{info_view, HandleAnswer, HandleMsg, InitMsg, QueryAnswer, QueryMsg};
use crate::transaction_history::BlockInfo;

verus! {

/// The circumstances of a message: the block in which it is carried out and
/// the account that sent it.
#[derive(Clone, Debug, PartialEq, Eq)]
pub struct Env {
    pub block: BlockInfo,
    pub sender: String,
}

/// What becomes of a command.
#[derive(Clone, Debug, PartialEq, Eq)]
pub enum HandleOutcome {
    /// The command was carried out here, with this answer.
    Answer(HandleAnswer),
    /// The command is one of the base schema and is to be carried out there.
    Forward(base::HandleMsg),
}

/// What becomes of a query.
#[derive(Clone, Debug, PartialEq, Eq)]
pub enum QueryOutcome {
    /// The query was answered here.
    Answer(QueryAnswer),
    /// The query is one of the base schema and is to be answered there.
    Forward(base::QueryMsg),
}

/// Starts the token: writes the marketing record that `msg` brings, if it
/// brings one, and returns the message of the base schema with which the
/// token itself is to be started, in the same circumstances. A record that
/// is not well formed is refused and nothing is written.
pub fn init(store: &mut MarketingStore, env: &Env, msg: InitMsg) -> (forward: Result<
    base::InitMsg,
    ContractError,
>)
    ensures
        match msg.marketing_info {
            Some(info) => {
                &&& final(store)@ == replaced(old(store)@, Some(info@))
                &&& info@.is_valid() ==> forward == Ok::<base::InitMsg, ContractError>(
                    base::InitMsg::from_spec(msg),
                )
                &&& !info@.is_valid() ==> forward == Err::<base::InitMsg, ContractError>(
                    ContractError::InvalidInput,
                ) && *final(store) == *old(store)
            },
            None => {
                &&& *final(store) == *old(store)
                &&& forward == Ok::<base::InitMsg, ContractError>(base::InitMsg::from_spec(msg))
            },
        },
        old(store).wf() ==> final(store).wf(),
{
    match &msg.marketing_info {
        Some(info) => {
            match init_marketing_info(store, info.clone()) {
                Ok(()) => {},
                Err(e) => {
                    return Err(e);
                },
            }
        },
        None => {},
    }
    Ok(base::InitMsg::from(msg))
}

/// Carries out a command. The one that replaces the marketing record is
/// carried out here, whoever sent it: no authority is asked for, and the
/// outcome is the same in all circumstances. Every other command is handed
/// on in the base schema, to be carried out in the same circumstances, and
/// the store stays as it was.
pub fn handle(store: &mut MarketingStore, env: &Env, msg: HandleMsg) -> (outcome: Result<
    HandleOutcome,
    ContractError,
>)
    ensures
        match msg {
            HandleMsg::SetMarketingInfo { marketing_info, .. } => {
                &&& final(store)@ == replaced(old(store)@, info_view(marketing_info))
                &&& acceptable(info_view(marketing_info)) ==> outcome == Ok::<
                    HandleOutcome,
                    ContractError,
                >(HandleOutcome::Answer(set_marketing_info_answer()))
                &&& !acceptable(info_view(marketing_info)) ==> outcome == Err::<
                    HandleOutcome,
                    ContractError,
                >(ContractError::InvalidInput) && *final(store) == *old(store)
            },
            _ => {
                &&& *final(store) == *old(store)
                &&& base::HandleMsg::try_from_spec(msg) is Ok
                &&& outcome == Ok::<HandleOutcome, ContractError>(
                    HandleOutcome::Forward(base::HandleMsg::try_from_spec(msg)->Ok_0),
                )
            },
        },
        old(store).wf() ==> final(store).wf(),
{
    match msg {
        HandleMsg::SetMarketingInfo { marketing_info, .. } => {
            match handle_set_marketing_info(store, marketing_info) {
                Ok(answer) => Ok(HandleOutcome::Answer(answer)),
                Err(e) => Err(e),
            }
        },
        msg => {
            match base::HandleMsg::try_from(msg) {
                Ok(converted) => Ok(HandleOutcome::Forward(converted)),
                Err(e) => Err(e),
            }
        },
    }
}

/// Answers a query. The one for the marketing record is answered here, for
/// any caller; every other query is handed on in the base schema.
pub fn query(store: &MarketingStore, msg: QueryMsg) -> (outcome: Result<
    QueryOutcome,
    ContractError,
>)
    ensures
        match msg {
            QueryMsg::MarketingInfo {} => outcome matches Ok(
                QueryOutcome::Answer(QueryAnswer::MarketingInfo { marketing_info }),
            ) && info_view(marketing_info) == published(store@),
            _ => {
                &&& base::QueryMsg::try_from_spec(msg) is Ok
                &&& outcome == Ok::<QueryOutcome, ContractError>(
                    QueryOutcome::Forward(base::QueryMsg::try_from_spec(msg)->Ok_0),
                )
            },
        },
{
    match msg {
        QueryMsg::MarketingInfo {} => {
            match query_marketing_info(store) {
                Ok(answer) => Ok(QueryOutcome::Answer(answer)),
                Err(e) => Err(e),
            }
        },
        msg => {
            match base::QueryMsg::try_from(msg) {
                Ok(converted) => Ok(QueryOutcome::Forward(converted)),
                Err(e) => Err(e),
            }
        },
    }
}

} // verus!
