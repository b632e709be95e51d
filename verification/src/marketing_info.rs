//! The marketing record: one optional description of the project, written as
//! a whole and readable by anyone.

use vstd::prelude::*;
use crate::base::ResponseStatus;
use crate::error::ContractError;
use crate::msg::{info_view, HandleAnswer, MarketingInfo, MarketingInfoView, QueryAnswer};

verus! {

/// What the store holds: `None` until the first write, then the value last
/// written, which may itself be "no record".
pub type MarketingState = Option<Option<MarketingInfoView>>;

/// A value may be written when it is "no record" or a well-formed record.
pub open spec fn acceptable(info: Option<MarketingInfoView>) -> bool {
    match info {
        Some(record) => record.is_valid(),
        None => true,
    }
}

/// The store after an attempt to write `info`: an acceptable value takes the
/// place of whatever was there, any other leaves the store as it was.
pub open spec fn replaced(before: MarketingState, info: Option<MarketingInfoView>)
    -> MarketingState {
    if acceptable(info) {
        Some(info)
    } else {
        before
    }
}

/// What a read of the store returns: the value last written, or `NotFound`
/// when nothing was ever written.
pub open spec fn loaded(state: MarketingState) -> Result<Option<MarketingInfoView>, ContractError> {
    match state {
        Some(info) => Ok(info),
        None => Err(ContractError::NotFound),
    }
}

/// What a query shows: the record last written, and no record when nothing
/// was ever written.
pub open spec fn published(state: MarketingState) -> Option<MarketingInfoView> {
    match state {
        Some(info) => info,
        None => None,
    }
}

/// The place where the marketing record is kept.
#[derive(Debug)]
pub struct MarketingStore {
    slot: Option<Option<MarketingInfo>>,
}

impl View for MarketingStore {
    type V = MarketingState;

    closed spec fn view(&self) -> MarketingState {
        match self.slot {
            Some(info) => Some(info_view(info)),
            None => None,
        }
    }
}

impl MarketingStore {
    /// Whatever the store holds is acceptable.
    pub open spec fn wf(&self) -> bool {
        match self@ {
            Some(info) => acceptable(info),
            None => true,
        }
    }

    /// A store to which nothing was written yet.
    pub fn new() -> (store: Self)
        ensures
            store@ == None::<Option<MarketingInfoView>>,
            store.wf(),
    {
        MarketingStore { slot: None }
    }

    /// A store that holds what was saved earlier: `None` if nothing was. A
    /// saved record that is not well formed is refused.
    pub fn restore(saved: Option<Option<MarketingInfo>>) -> (restored: Result<Self, ContractError>)
        ensures
            match saved {
                Some(info) if !acceptable(info_view(info)) => restored is Err
                    && restored->Err_0 == ContractError::InvalidInput,
                Some(info) => restored is Ok && restored->Ok_0@ == Some(info_view(info))
                    && restored->Ok_0.wf(),
                None => restored is Ok && restored->Ok_0@ == None::<Option<MarketingInfoView>>
                    && restored->Ok_0.wf(),
            },
    {
        let mut store = MarketingStore::new();
        match saved {
            Some(info) => {
                match write_marketing_info(&mut store, info) {
                    Ok(()) => Ok(store),
                    Err(e) => Err(e),
                }
            },
            None => Ok(store),
        }
    }

    /// What is to be saved for this store: `None` if nothing was written.
    pub fn into_saved(self) -> (saved: Option<Option<MarketingInfo>>)
        ensures
            match saved {
                Some(info) => self@ == Some(info_view(info)),
                None => self@ == None::<Option<MarketingInfoView>>,
            },
    {
        self.slot
    }
}

/// Writes `info` in place of whatever the store holds. A record that is not
/// well formed is refused as invalid input, and the store stays as it was.
pub fn write_marketing_info(store: &mut MarketingStore, info: Option<MarketingInfo>) -> (written:
    Result<(), ContractError>)
    ensures
        final(store)@ == replaced(old(store)@, info_view(info)),
        acceptable(info_view(info)) ==> written == Ok::<(), ContractError>(()),
        !acceptable(info_view(info)) ==> written == Err::<(), ContractError>(
            ContractError::InvalidInput,
        ) && *final(store) == *old(store),
        old(store).wf() ==> final(store).wf(),
{
    match &info {
        Some(record) => {
            match record.validate() {
                Ok(()) => {},
                Err(e) => {
                    return Err(e);
                },
            }
        },
        None => {},
    }
    store.slot = Some(info);
    Ok(())
}

/// Reads the value last written: a copy of the record, or `None` if the last
/// write cleared it. Fails with `NotFound` if nothing was ever written.
pub fn read_marketing_info(store: &MarketingStore) -> (read: Result<
    Option<MarketingInfo>,
    ContractError,
>)
    ensures
        match read {
            Ok(info) => loaded(store@) == Ok::<Option<MarketingInfoView>, ContractError>(
                info_view(info),
            ),
            Err(e) => loaded(store@) == Err::<Option<MarketingInfoView>, ContractError>(e),
        },
{
    match &store.slot {
        Some(Some(record)) => Ok(Some(record.clone())),
        Some(None) => Ok(None),
        None => Err(ContractError::NotFound),
    }
}

/// Writes the record that the token starts with.
pub fn init_marketing_info(store: &mut MarketingStore, marketing_info: MarketingInfo) -> (written:
    Result<(), ContractError>)
    ensures
        final(store)@ == replaced(old(store)@, Some(marketing_info@)),
        marketing_info@.is_valid() ==> written == Ok::<(), ContractError>(()),
        !marketing_info@.is_valid() ==> written == Err::<(), ContractError>(
            ContractError::InvalidInput,
        ) && *final(store) == *old(store),
        old(store).wf() ==> final(store).wf(),
{
    write_marketing_info(store, Some(marketing_info))
}

/// The answer to a command that replaced the marketing record.
pub open spec fn set_marketing_info_answer() -> HandleAnswer {
    HandleAnswer::SetMarketingInfo { status: ResponseStatus::Success }
}

/// Replaces the marketing record by `marketing_info`, or clears it when given
/// `None`. Any caller may do so: no authority is asked for. A record that is
/// not well formed is refused and the store stays as it was.
pub fn handle_set_marketing_info(
    store: &mut MarketingStore,
    marketing_info: Option<MarketingInfo>,
) -> (answer: Result<HandleAnswer, ContractError>)
    ensures
        final(store)@ == replaced(old(store)@, info_view(marketing_info)),
        acceptable(info_view(marketing_info)) ==> answer == Ok::<HandleAnswer, ContractError>(
            set_marketing_info_answer(),
        ),
        !acceptable(info_view(marketing_info)) ==> answer == Err::<HandleAnswer, ContractError>(
            ContractError::InvalidInput,
        ) && *final(store) == *old(store),
        old(store).wf() ==> final(store).wf(),
{
    match write_marketing_info(store, marketing_info) {
        Ok(()) => Ok(HandleAnswer::SetMarketingInfo { status: ResponseStatus::Success }),
        Err(e) => Err(e),
    }
}

/// Answers with the marketing record, for any caller. A store to which
/// nothing was ever written answers with no record.
pub fn query_marketing_info(store: &MarketingStore) -> (answer: Result<QueryAnswer, ContractError>)
    ensures
        answer matches Ok(QueryAnswer::MarketingInfo { marketing_info }) && info_view(
            marketing_info,
        ) == published(store@),
{
    let marketing_info = match read_marketing_info(store) {
        Ok(info) => info,
        Err(_) => None,
    };
    Ok(QueryAnswer::MarketingInfo { marketing_info })
}

/// A record that was written is the one that is read back, and a cleared
/// record reads back as none: whatever the store held before, once an
/// acceptable value is written, both a read and a query return that value.
pub proof fn lemma_read_after_replace(before: MarketingState, info: Option<MarketingInfoView>)
    requires
        acceptable(info),
    ensures
        loaded(replaced(before, info)) == Ok::<Option<MarketingInfoView>, ContractError>(info),
        published(replaced(before, info)) == info,
{
}

/// A value that is refused changes nothing: the store reads as before.
pub proof fn lemma_refused_write_changes_nothing(
    before: MarketingState,
    info: Option<MarketingInfoView>,
)
    requires
        !acceptable(info),
    ensures
        replaced(before, info) == before,
{
}

/// The last write wins: nothing of an earlier record is left in a later one.
pub proof fn lemma_replace_is_whole(
    before: MarketingState,
    first: Option<MarketingInfoView>,
    second: Option<MarketingInfoView>,
)
    requires
        acceptable(second),
    ensures
        replaced(replaced(before, first), second) == replaced(before, second),
{
}

} // verus!
