//! The transaction log: an append-only record of every movement of tokens,
//! read back page by page, newest first, by the accounts that took part.

use vstd::prelude::*;
use crate::error::ContractError;

verus! {

/// The block in which a message is carried out.
#[derive(Clone, Copy, Debug, PartialEq, Eq, Structural)]
pub struct BlockInfo {
    pub height: u64,
    pub time: u64,
}

/// An amount of a named denomination.
#[derive(Clone, Debug, PartialEq, Eq)]
pub struct Coin {
    pub denom: String,
    pub amount: u128,
}

/// What a record reports, with the accounts that took part.
#[derive(Clone, Debug, PartialEq, Eq)]
pub enum TxAction {
    Transfer { from: String, sender: String, recipient: String },
    Mint { minter: String, recipient: String },
    Burn { burner: String, owner: String },
    Deposit { depositor: String },
    Redeem { redeemer: String },
}

/// A record of the full log.
#[derive(Clone, Debug, PartialEq, Eq)]
pub struct RichTx {
    pub id: u64,
    pub action: TxAction,
    pub coins: Coin,
    pub memo: Option<String>,
    pub block_time: u64,
    pub block_height: u64,
}

/// A record of the transfer log.
#[derive(Clone, Debug, PartialEq, Eq)]
pub struct Tx {
    pub id: u64,
    pub from: String,
    pub sender: String,
    pub receiver: String,
    pub coins: Coin,
    pub memo: Option<String>,
    pub block_time: Option<u64>,
    pub block_height: Option<u64>,
}

/// Whether the account took part in what the record reports.
pub open spec fn involves(tx: RichTx, who: Seq<char>) -> bool {
    match tx.action {
        TxAction::Transfer { from, sender, recipient } => from@ == who || sender@ == who
            || recipient@ == who,
        TxAction::Mint { minter, recipient } => minter@ == who || recipient@ == who,
        TxAction::Burn { burner, owner } => burner@ == who || owner@ == who,
        TxAction::Deposit { depositor } => depositor@ == who,
        TxAction::Redeem { redeemer } => redeemer@ == who,
    }
}

/// Whether a view shows the record to the account: the account took part,
/// and the record is a transfer if the view shows transfers only.
pub open spec fn shows(tx: RichTx, who: Seq<char>, transfers_only: bool) -> bool {
    involves(tx, who) && (transfers_only ==> tx.action is Transfer)
}

/// What a view shows to the account, newest first: the last record of the
/// log if it is shown, then what is shown of the records before it.
pub open spec fn shown(log: Seq<RichTx>, who: Seq<char>, transfers_only: bool) -> Seq<RichTx>
    decreases log.len(),
{
    if log.len() == 0 {
        Seq::empty()
    } else if shows(log.last(), who, transfers_only) {
        seq![log.last()] + shown(log.drop_last(), who, transfers_only)
    } else {
        shown(log.drop_last(), who, transfers_only)
    }
}

/// The part of a list that begins at place `start` and has up to `size`
/// entries: fewer, or none, where the list ends before.
pub open spec fn slice_of<T>(list: Seq<T>, start: nat, size: nat) -> Seq<T> {
    let lo = if start <= list.len() {
        start
    } else {
        list.len()
    };
    let hi = if start + size <= list.len() {
        start + size
    } else {
        list.len()
    };
    list.subrange(lo as int, hi as int)
}

/// Page number `page` of a list cut into pages of `size` entries; the first
/// page has the number 0.
pub open spec fn page_of<T>(list: Seq<T>, page: nat, size: nat) -> Seq<T> {
    slice_of(list, page * size, size)
}

/// A transfer record as the transfer log shows it.
pub open spec fn tx_of(tx: RichTx) -> Tx
    recommends
        tx.action is Transfer,
{
    Tx {
        id: tx.id,
        from: tx.action->from,
        sender: tx.action->sender,
        receiver: tx.action->Transfer_recipient,
        coins: tx.coins,
        memo: tx.memo,
        block_time: Some(tx.block_time),
        block_height: Some(tx.block_height),
    }
}

/// The records carry their place in the log as their sequence number.
pub open spec fn numbered(log: Seq<RichTx>) -> bool {
    forall|i: int| 0 <= i < log.len() ==> (#[trigger] log[i]).id == i
}

/// The record that an append adds to a log.
pub open spec fn next_record(
    log: Seq<RichTx>,
    action: TxAction,
    coins: Coin,
    memo: Option<String>,
    block: BlockInfo,
) -> RichTx {
    RichTx {
        id: log.len() as u64,
        action,
        coins,
        memo,
        block_time: block.time,
        block_height: block.height,
    }
}

/// The log of transactions.
#[derive(Debug)]
pub struct History {
    records: Vec<RichTx>,
    max_page_size: u32,
}

impl View for History {
    type V = Seq<RichTx>;

    closed spec fn view(&self) -> Seq<RichTx> {
        self.records@
    }
}

/// A copy of an optional text.
fn copy_text(text: &Option<String>) -> (copy: Option<String>)
    ensures
        copy == *text,
{
    match text {
        Some(t) => Some(t.clone()),
        None => None,
    }
}

/// A copy of a record.
fn copy_record(tx: &RichTx) -> (copy: RichTx)
    ensures
        copy == *tx,
{
    let action = match &tx.action {
        TxAction::Transfer { from, sender, recipient } => TxAction::Transfer {
            from: from.clone(),
            sender: sender.clone(),
            recipient: recipient.clone(),
        },
        TxAction::Mint { minter, recipient } => TxAction::Mint {
            minter: minter.clone(),
            recipient: recipient.clone(),
        },
        TxAction::Burn { burner, owner } => TxAction::Burn {
            burner: burner.clone(),
            owner: owner.clone(),
        },
        TxAction::Deposit { depositor } => TxAction::Deposit { depositor: depositor.clone() },
        TxAction::Redeem { redeemer } => TxAction::Redeem { redeemer: redeemer.clone() },
    };
    RichTx {
        id: tx.id,
        action,
        coins: Coin { denom: tx.coins.denom.clone(), amount: tx.coins.amount },
        memo: copy_text(&tx.memo),
        block_time: tx.block_time,
        block_height: tx.block_height,
    }
}

/// A transfer record in the form of the transfer log.
fn transfer_form(tx: &RichTx) -> (form: Tx)
    requires
        tx.action is Transfer,
    ensures
        form == tx_of(*tx),
{
    let (from, sender, receiver) = match &tx.action {
        TxAction::Transfer { from, sender, recipient } => (
            from.clone(),
            sender.clone(),
            recipient.clone(),
        ),
        _ => vstd::pervasive::unreached(),
    };
    Tx {
        id: tx.id,
        from,
        sender,
        receiver,
        coins: Coin { denom: tx.coins.denom.clone(), amount: tx.coins.amount },
        memo: copy_text(&tx.memo),
        block_time: Some(tx.block_time),
        block_height: Some(tx.block_height),
    }
}

/// Whether a view shows the record to the account.
fn is_shown(tx: &RichTx, who: &String, transfers_only: bool) -> (yes: bool)
    ensures
        yes == shows(*tx, who@, transfers_only),
{
    match &tx.action {
        TxAction::Transfer { from, sender, recipient } => *from == *who || *sender == *who
            || *recipient == *who,
        TxAction::Mint { minter, recipient } => !transfers_only && (*minter == *who || *recipient
            == *who),
        TxAction::Burn { burner, owner } => !transfers_only && (*burner == *who || *owner
            == *who),
        TxAction::Deposit { depositor } => !transfers_only && *depositor == *who,
        TxAction::Redeem { redeemer } => !transfers_only && *redeemer == *who,
    }
}

/// A slice of a list that grew by one entry at its end grows by that entry
/// if the entry falls into the slice, and stays as it was if not.
pub proof fn lemma_slice_of_push<T>(list: Seq<T>, entry: T, start: nat, size: nat)
    ensures
        slice_of(list.push(entry), start, size) == if start <= list.len() < start + size {
            slice_of(list, start, size).push(entry)
        } else {
            slice_of(list, start, size)
        },
{
    if start <= list.len() < start + size {
        assert(slice_of(list.push(entry), start, size) =~= slice_of(list, start, size).push(
            entry,
        ));
    } else {
        assert(slice_of(list.push(entry), start, size) =~= slice_of(list, start, size));
    }
}

impl History {
    /// The largest page that the log hands out.
    pub closed spec fn page_limit(&self) -> u32 {
        self.max_page_size
    }

    /// The records are numbered by their place in the log.
    pub open spec fn wf(&self) -> bool {
        numbered(self@)
    }

    /// An empty log that hands out pages of up to `max_page_size` records.
    pub fn new(max_page_size: u32) -> (log: Self)
        ensures
            log.wf(),
            log@ == Seq::<RichTx>::empty(),
            log.page_limit() == max_page_size,
    {
        History { records: Vec::new(), max_page_size }
    }

    /// The number of records in the log.
    pub fn len(&self) -> (count: usize)
        ensures
            count == self@.len(),
    {
        self.records.len()
    }

    /// Adds one record at the end of the log and returns its sequence
    /// number. The records that were there stay as they were.
    pub fn append(
        &mut self,
        action: TxAction,
        coins: Coin,
        memo: Option<String>,
        block: &BlockInfo,
    ) -> (id: u64)
        requires
            old(self).wf(),
        ensures
            final(self).wf(),
            final(self)@ == old(self)@.push(next_record(old(self)@, action, coins, memo, *block)),
            final(self).page_limit() == old(self).page_limit(),
            id == old(self)@.len(),
    {
        let id: u64 = self.records.len() as u64;
        self.records.push(
            RichTx {
                id,
                action,
                coins,
                memo,
                block_time: block.time,
                block_height: block.height,
            },
        );
        id
    }

    /// What a view shows to the account on one page, and how many records it
    /// shows to the account in all.
    fn select(&self, who: &String, transfers_only: bool, page: u32, page_size: u32) -> (out: (
        Vec<RichTx>,
        u64,
    ))
        ensures
            out.0@ == page_of(shown(self@, who@, transfers_only), page as nat, page_size as nat),
            out.1 == shown(self@, who@, transfers_only).len(),
    {
        assert(page * page_size <= 0xFFFF_FFFF * 0xFFFF_FFFF) by (nonlinear_arith)
            requires
                0 <= page <= 0xFFFF_FFFF,
                0 <= page_size <= 0xFFFF_FFFF,
        ;
        let start: u64 = (page as u64) * (page_size as u64);
        let end: u64 = start + (page_size as u64);
        let ghost log = self@;
        let ghost all = shown(log, who@, transfers_only);
        let ghost mut newer: Seq<RichTx> = Seq::empty();
        let mut found: Vec<RichTx> = Vec::new();
        let mut seen: u64 = 0;
        let mut i: usize = self.records.len();
        assert(log.take(i as int) =~= log);
        while i > 0
            invariant
                log == self@,
                log == self.records@,
                i <= log.len(),
                log.len() <= usize::MAX,
                all == shown(log, who@, transfers_only),
                all == newer + shown(log.take(i as int), who@, transfers_only),
                seen == newer.len(),
                seen <= log.len() - i,
                start == page * page_size,
                end == start + page_size,
                found@ == slice_of(newer, start as nat, page_size as nat),
            decreases i,
        {
            let ghost older = log.take(i as int);
            i -= 1;
            let tx = &self.records[i];
            proof {
                assert(older.last() == log[i as int]);
                assert(older.drop_last() =~= log.take(i as int));
            }
            if is_shown(tx, who, transfers_only) {
                proof {
                    lemma_slice_of_push(newer, *tx, start as nat, page_size as nat);
                    assert(newer.push(*tx) + shown(log.take(i as int), who@, transfers_only)
                        =~= newer + (seq![*tx] + shown(
                        log.take(i as int),
                        who@,
                        transfers_only,
                    )));
                    newer = newer.push(*tx);
                }
                if start <= seen && seen < end {
                    found.push(copy_record(tx));
                }
                seen += 1;
            }
        }
        assert(log.take(0) =~= Seq::<RichTx>::empty());
        assert(all =~= newer);
        (found, seen)
    }

    /// One page of the full log of the account, newest record first, with
    /// the number of records that the full log shows to the account. A page
    /// past the last one is empty. Fails with `InvalidInput` if `page_size`
    /// is above the limit of the log.
    pub fn page(&self, account: &String, page: u32, page_size: u32) -> (result: Result<
        (Vec<RichTx>, u64),
        ContractError,
    >)
        ensures
            page_size > self.page_limit() ==> result == Err::<(Vec<RichTx>, u64), ContractError>(
                ContractError::InvalidInput,
            ),
            page_size <= self.page_limit() ==> result is Ok && result->Ok_0.0@ == page_of(
                shown(self@, account@, false),
                page as nat,
                page_size as nat,
            ) && result->Ok_0.1 == shown(self@, account@, false).len(),
    {
        if page_size > self.max_page_size {
            return Err(ContractError::InvalidInput);
        }
        Ok(self.select(account, false, page, page_size))
    }

    /// One page of the transfer log of the account: as `page`, but of the
    /// transfers only, each in the form of the transfer log.
    pub fn transfer_page(&self, account: &String, page: u32, page_size: u32) -> (result: Result<
        (Vec<Tx>, u64),
        ContractError,
    >)
        ensures
            page_size > self.page_limit() ==> result == Err::<(Vec<Tx>, u64), ContractError>(
                ContractError::InvalidInput,
            ),
            page_size <= self.page_limit() ==> result is Ok && result->Ok_0.0@ == page_of(
                shown(self@, account@, true),
                page as nat,
                page_size as nat,
            ).map_values(|tx: RichTx| tx_of(tx)) && result->Ok_0.1 == shown(
                self@,
                account@,
                true,
            ).len(),
    {
        if page_size > self.max_page_size {
            return Err(ContractError::InvalidInput);
        }
        let (records, total) = self.select(account, true, page, page_size);
        let ghost given = records@;
        proof {
            let all = shown(self@, account@, true);
            lemma_shown(self@, account@, true);
            lemma_page_is_run(all, page as nat, page_size as nat);
            assert forall|j: int| 0 <= j < given.len() implies (#[trigger] given[j]).action
                is Transfer by {
                assert(given[j] == all[page * page_size + j]);
            }
        }
        let mut txs: Vec<Tx> = Vec::new();
        let mut i: usize = 0;
        while i < records.len()
            invariant
                i <= records@.len(),
                records@ == given,
                forall|j: int| 0 <= j < given.len() ==> (#[trigger] given[j]).action is Transfer,
                txs@.len() == i,
                forall|j: int| 0 <= j < i ==> #[trigger] txs@[j] == tx_of(given[j]),
            decreases records@.len() - i,
        {
            txs.push(transfer_form(&records[i]));
            i += 1;
        }
        assert(txs@ =~= given.map_values(|tx: RichTx| tx_of(tx)));
        Ok((txs, total))
    }
}

/// What a view shows is what it should: every record shown is one of the log
/// that the view shows to the account, and every such record of the log is
/// shown.
pub proof fn lemma_shown(log: Seq<RichTx>, who: Seq<char>, transfers_only: bool)
    ensures
        forall|k: int|
            0 <= k < shown(log, who, transfers_only).len() ==> shows(
                #[trigger] shown(log, who, transfers_only)[k],
                who,
                transfers_only,
            ) && log.contains(shown(log, who, transfers_only)[k]),
        forall|i: int|
            0 <= i < log.len() && shows(#[trigger] log[i], who, transfers_only) ==> shown(
                log,
                who,
                transfers_only,
            ).contains(log[i]),
        shown(log, who, transfers_only).len() <= log.len(),
    decreases log.len(),
{
    if log.len() > 0 {
        let earlier = log.drop_last();
        let rest = shown(earlier, who, transfers_only);
        let all = shown(log, who, transfers_only);
        lemma_shown(earlier, who, transfers_only);
        assert forall|k: int| 0 <= k < all.len() implies shows(
            #[trigger] all[k],
            who,
            transfers_only,
        ) && log.contains(all[k]) by {
            if shows(log.last(), who, transfers_only) && k == 0 {
                assert(all[k] == log[log.len() - 1]);
            } else {
                let r = if shows(log.last(), who, transfers_only) {
                    rest[k - 1]
                } else {
                    rest[k]
                };
                assert(all[k] == r);
                assert(earlier.contains(r));
                let j = choose|j: int| 0 <= j < earlier.len() && earlier[j] == r;
                assert(log[j] == r);
            }
        }
        assert forall|i: int|
            0 <= i < log.len() && shows(#[trigger] log[i], who, transfers_only) implies all.contains(
            log[i],
        ) by {
            if i == log.len() - 1 {
                assert(all[0] == log[i]);
            } else {
                assert(earlier[i] == log[i]);
                assert(rest.contains(log[i]));
                let k = choose|k: int| 0 <= k < rest.len() && rest[k] == log[i];
                if shows(log.last(), who, transfers_only) {
                    assert(all[k + 1] == log[i]);
                } else {
                    assert(all[k] == log[i]);
                }
            }
        }
    }
}

/// Newest first: in a log whose records are numbered by their place, what a
/// view shows has strictly falling sequence numbers, so no record is shown
/// twice.
pub proof fn lemma_shown_newest_first(log: Seq<RichTx>, who: Seq<char>, transfers_only: bool)
    requires
        numbered(log),
    ensures
        forall|k: int|
            0 <= k < shown(log, who, transfers_only).len() ==> (#[trigger] shown(
                log,
                who,
                transfers_only,
            )[k]).id < log.len(),
        forall|a: int, b: int|
            0 <= a < b < shown(log, who, transfers_only).len() ==> (#[trigger] shown(
                log,
                who,
                transfers_only,
            )[a]).id > (#[trigger] shown(log, who, transfers_only)[b]).id,
    decreases log.len(),
{
    if log.len() > 0 {
        let earlier = log.drop_last();
        let rest = shown(earlier, who, transfers_only);
        let all = shown(log, who, transfers_only);
        assert(numbered(earlier)) by {
            assert forall|i: int| 0 <= i < earlier.len() implies (#[trigger] earlier[i]).id
                == i by {
                assert(earlier[i] == log[i]);
            }
        }
        lemma_shown_newest_first(earlier, who, transfers_only);
        if shows(log.last(), who, transfers_only) {
            assert(all[0] == log[log.len() - 1]);
            assert forall|k: int| 0 <= k < all.len() implies (#[trigger] all[k]).id
                < log.len() by {
                if k > 0 {
                    assert(all[k] == rest[k - 1]);
                }
            }
            assert forall|a: int, b: int| 0 <= a < b < all.len() implies (#[trigger] all[a]).id > (
            #[trigger] all[b]).id by {
                assert(all[b] == rest[b - 1]);
                if a > 0 {
                    assert(all[a] == rest[a - 1]);
                }
            }
        }
    }
}

/// A page is a run of the list: its entry at place `k` is the entry of the
/// list at place `page * size + k`, and it has `size` entries unless the
/// list ends before.
pub proof fn lemma_page_is_run<T>(list: Seq<T>, page: nat, size: nat)
    ensures
        page_of(list, page, size).len() <= size,
        page * size + size <= list.len() ==> page_of(list, page, size).len() == size,
        forall|k: int|
            0 <= k < page_of(list, page, size).len() ==> page * size + k < list.len()
                && #[trigger] page_of(list, page, size)[k] == list[page * size + k],
{
}

/// A page past the end of the list is empty.
pub proof fn lemma_page_past_end_is_empty<T>(list: Seq<T>, page: nat, size: nat)
    requires
        page * size >= list.len(),
    ensures
        page_of(list, page, size) == Seq::<T>::empty(),
{
    assert(page_of(list, page, size) =~= Seq::<T>::empty());
}

/// Two different pages share no place of the list: the earlier page ends
/// where the later one begins, or before.
pub proof fn lemma_pages_do_not_overlap<T>(list: Seq<T>, first: nat, second: nat, size: nat)
    requires
        first < second,
    ensures
        first * size + page_of(list, first, size).len() <= second * size,
{
    assert(first * size + size <= second * size) by (nonlinear_arith)
        requires
            first < second,
    ;
}

/// Two different pages of what a view shows share no record: the records of
/// the earlier page are all newer than those of the later page.
pub proof fn lemma_pages_are_disjoint(
    log: Seq<RichTx>,
    who: Seq<char>,
    transfers_only: bool,
    first: nat,
    second: nat,
    size: nat,
)
    requires
        numbered(log),
        first < second,
    ensures
        forall|i: int, j: int|
            0 <= i < page_of(shown(log, who, transfers_only), first, size).len() && 0 <= j
                < page_of(shown(log, who, transfers_only), second, size).len() ==> (
            #[trigger] page_of(shown(log, who, transfers_only), first, size)[i]).id > (
            #[trigger] page_of(shown(log, who, transfers_only), second, size)[j]).id,
{
    let all = shown(log, who, transfers_only);
    lemma_shown_newest_first(log, who, transfers_only);
    lemma_pages_do_not_overlap(all, first, second, size);
    lemma_page_is_run(all, first, size);
    lemma_page_is_run(all, second, size);
    assert forall|i: int, j: int|
        0 <= i < page_of(all, first, size).len() && 0 <= j < page_of(
            all,
            second,
            size,
        ).len() implies (#[trigger] page_of(all, first, size)[i]).id > (#[trigger] page_of(
        all,
        second,
        size,
    )[j]).id by {
        assert(page_of(all, first, size)[i] == all[first * size + i]);
        assert(page_of(all, second, size)[j] == all[second * size + j]);
    }
}

/// Within a page the records are newest first.
pub proof fn lemma_page_newest_first(
    log: Seq<RichTx>,
    who: Seq<char>,
    transfers_only: bool,
    page: nat,
    size: nat,
)
    requires
        numbered(log),
    ensures
        forall|a: int, b: int|
            0 <= a < b < page_of(shown(log, who, transfers_only), page, size).len() ==> (
            #[trigger] page_of(shown(log, who, transfers_only), page, size)[a]).id > (
            #[trigger] page_of(shown(log, who, transfers_only), page, size)[b]).id,
{
    let all = shown(log, who, transfers_only);
    lemma_shown_newest_first(log, who, transfers_only);
    lemma_page_is_run(all, page, size);
    assert forall|a: int, b: int| 0 <= a < b < page_of(all, page, size).len() implies (
    #[trigger] page_of(all, page, size)[a]).id > (#[trigger] page_of(all, page, size)[b]).id by {
        assert(page_of(all, page, size)[a] == all[page * size + a]);
        assert(page_of(all, page, size)[b] == all[page * size + b]);
    }
}

} // verus!
