use snipix::error::ContractError;
use snipix::transaction_history::{BlockInfo, Coin, History, RichTx, Tx, TxAction};

fn s(text: &str) -> String {
    text.to_string()
}

fn coin(amount: u128) -> Coin {
    Coin { denom: s("SECSEC"), amount }
}

fn transfer(from: &str, to: &str) -> TxAction {
    TxAction::Transfer { from: s(from), sender: s(from), recipient: s(to) }
}

fn block(n: u64) -> BlockInfo {
    BlockInfo { height: n, time: 1000 + n }
}

fn five_records() -> History {
    let mut log = History::new(10);
    for i in 0u64..5 {
        let id = log.append(transfer("alice", "bob"), coin(i as u128 + 1), None, &block(i));
        assert_eq!(id, i);
    }
    log
}

fn ids(page: &[RichTx]) -> Vec<u64> {
    page.iter().map(|tx| tx.id).collect()
}

#[test]
fn pages_of_two_over_five_records() {
    let log = five_records();
    let (page0, total0) = log.page(&s("alice"), 0, 2).unwrap();
    let (page1, total1) = log.page(&s("alice"), 1, 2).unwrap();
    let (page2, _) = log.page(&s("alice"), 2, 2).unwrap();
    assert_eq!(ids(&page0), vec![4, 3]);
    assert_eq!(ids(&page1), vec![2, 1]);
    assert_eq!(ids(&page2), vec![0]);
    assert_eq!(total0, 5);
    assert_eq!(total1, 5);
    for a in &page0 {
        for b in &page1 {
            assert_ne!(a.id, b.id);
        }
    }
}

#[test]
fn a_page_past_the_last_one_is_empty() {
    let log = five_records();
    assert_eq!(log.page(&s("alice"), 3, 2), Ok((vec![], 5)));
    assert_eq!(log.page(&s("alice"), u32::MAX, 10), Ok((vec![], 5)));
    assert_eq!(log.transfer_page(&s("alice"), 3, 2), Ok((vec![], 5)));
    assert_eq!(log.page(&s("alice"), 0, 0), Ok((vec![], 5)));
}

#[test]
fn a_page_size_above_the_limit_is_invalid_input() {
    let log = five_records();
    assert_eq!(log.page(&s("alice"), 0, 11), Err(ContractError::InvalidInput));
    assert_eq!(log.transfer_page(&s("alice"), 0, 11), Err(ContractError::InvalidInput));
    assert!(log.page(&s("alice"), 0, 10).is_ok());
}

#[test]
fn a_record_holds_what_was_appended() {
    let mut log = History::new(5);
    log.append(
        TxAction::Mint { minter: s("admin"), recipient: s("alice") },
        coin(77),
        Some(s("welcome")),
        &BlockInfo { height: 12, time: 3400 },
    );
    assert_eq!(log.len(), 1);
    assert_eq!(
        log.page(&s("alice"), 0, 5),
        Ok((
            vec![RichTx {
                id: 0,
                action: TxAction::Mint { minter: s("admin"), recipient: s("alice") },
                coins: coin(77),
                memo: Some(s("welcome")),
                block_time: 3400,
                block_height: 12,
            }],
            1
        ))
    );
}

#[test]
fn only_the_accounts_that_took_part_see_a_record() {
    let mut log = History::new(10);
    log.append(transfer("alice", "bob"), coin(1), None, &block(0));
    log.append(
        TxAction::Transfer { from: s("alice"), sender: s("carol"), recipient: s("dave") },
        coin(2),
        None,
        &block(1),
    );
    log.append(TxAction::Mint { minter: s("admin"), recipient: s("bob") }, coin(3), None, &block(2));
    log.append(TxAction::Burn { burner: s("carol"), owner: s("alice") }, coin(4), None, &block(3));
    log.append(TxAction::Deposit { depositor: s("erin") }, coin(5), None, &block(4));
    log.append(TxAction::Redeem { redeemer: s("erin") }, coin(6), None, &block(5));

    assert_eq!(ids(&log.page(&s("alice"), 0, 10).unwrap().0), vec![3, 1, 0]);
    assert_eq!(ids(&log.page(&s("bob"), 0, 10).unwrap().0), vec![2, 0]);
    assert_eq!(ids(&log.page(&s("carol"), 0, 10).unwrap().0), vec![3, 1]);
    assert_eq!(ids(&log.page(&s("dave"), 0, 10).unwrap().0), vec![1]);
    assert_eq!(ids(&log.page(&s("admin"), 0, 10).unwrap().0), vec![2]);
    assert_eq!(ids(&log.page(&s("erin"), 0, 10).unwrap().0), vec![5, 4]);
    assert_eq!(log.page(&s("mallory"), 0, 10), Ok((vec![], 0)));
}

#[test]
fn the_transfer_log_shows_transfers_only() {
    let mut log = History::new(10);
    log.append(TxAction::Mint { minter: s("admin"), recipient: s("alice") }, coin(9), None, &block(0));
    log.append(
        TxAction::Transfer { from: s("alice"), sender: s("carol"), recipient: s("bob") },
        coin(2),
        Some(s("memo")),
        &BlockInfo { height: 8, time: 90 },
    );
    log.append(TxAction::Burn { burner: s("alice"), owner: s("alice") }, coin(1), None, &block(2));
    assert_eq!(
        log.transfer_page(&s("alice"), 0, 10),
        Ok((
            vec![Tx {
                id: 1,
                from: s("alice"),
                sender: s("carol"),
                receiver: s("bob"),
                coins: coin(2),
                memo: Some(s("memo")),
                block_time: Some(90),
                block_height: Some(8),
            }],
            1
        ))
    );
    assert_eq!(log.page(&s("alice"), 0, 10).unwrap().1, 3);
    assert_eq!(log.transfer_page(&s("admin"), 0, 10), Ok((vec![], 0)));
}

#[test]
fn the_same_message_twice_makes_two_records() {
    let mut log = History::new(10);
    let first = log.append(transfer("alice", "bob"), coin(5), None, &block(1));
    let second = log.append(transfer("alice", "bob"), coin(5), None, &block(1));
    assert_eq!((first, second), (0, 1));
    assert_eq!(log.len(), 2);
    assert_eq!(ids(&log.page(&s("bob"), 0, 10).unwrap().0), vec![1, 0]);
}
