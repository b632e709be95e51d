use snipix::allowance::{expired, Allowance, AllowanceTable};
use snipix::error::ContractError;

fn s(text: &str) -> String {
    text.to_string()
}

#[test]
fn no_allowance_was_granted_at_first() {
    let table = AllowanceTable::new();
    assert_eq!(
        table.allowance(&s("owner"), &s("spender"), 0),
        Allowance { amount: 0, expiration: None }
    );
}

#[test]
fn a_larger_decrease_leaves_nothing() {
    let mut table = AllowanceTable::new();
    assert_eq!(
        table.increase_allowance(&s("owner"), &s("spender"), 100, None, 10),
        Ok(Allowance { amount: 100, expiration: None })
    );
    assert_eq!(
        table.decrease_allowance(&s("owner"), &s("spender"), 150, None, 10),
        Allowance { amount: 0, expiration: None }
    );
    assert_eq!(
        table.consume_allowance(&s("owner"), &s("spender"), 1, 10),
        Err(ContractError::Unauthorized)
    );
    assert_eq!(table.allowance(&s("owner"), &s("spender"), 10).amount, 0);
    assert_eq!(table.consume_allowance(&s("owner"), &s("spender"), 0, 10), Ok(()));
    assert_eq!(table.allowance(&s("owner"), &s("spender"), 10).amount, 0);
}

#[test]
fn increase_and_decrease_add_and_subtract() {
    let mut table = AllowanceTable::new();
    table.increase_allowance(&s("o"), &s("s"), 100, Some(50), 10).unwrap();
    assert_eq!(
        table.increase_allowance(&s("o"), &s("s"), 25, None, 10),
        Ok(Allowance { amount: 125, expiration: Some(50) })
    );
    assert_eq!(
        table.decrease_allowance(&s("o"), &s("s"), 5, Some(60), 10),
        Allowance { amount: 120, expiration: Some(60) }
    );
    assert_eq!(
        table.allowance(&s("o"), &s("s"), 10),
        Allowance { amount: 120, expiration: Some(60) }
    );
    assert_eq!(table.allowance(&s("s"), &s("o"), 10).amount, 0);
    assert_eq!(table.allowance(&s("o"), &s("other"), 10).amount, 0);
}

#[test]
fn increase_fails_with_overflow_and_changes_nothing() {
    let mut table = AllowanceTable::new();
    table.increase_allowance(&s("o"), &s("s"), u128::MAX - 1, None, 0).unwrap();
    assert_eq!(
        table.increase_allowance(&s("o"), &s("s"), 2, Some(7), 0),
        Err(ContractError::Overflow)
    );
    assert_eq!(
        table.allowance(&s("o"), &s("s"), 0),
        Allowance { amount: u128::MAX - 1, expiration: None }
    );
    assert_eq!(
        table.increase_allowance(&s("o"), &s("s"), 1, None, 0),
        Ok(Allowance { amount: u128::MAX, expiration: None })
    );
}

#[test]
fn consume_uses_up_the_allowance() {
    let mut table = AllowanceTable::new();
    table.increase_allowance(&s("o"), &s("s"), 100, None, 0).unwrap();
    assert_eq!(table.check_allowance(&s("o"), &s("s"), 100, 0), Ok(()));
    assert_eq!(table.consume_allowance(&s("o"), &s("s"), 60, 0), Ok(()));
    assert_eq!(table.allowance(&s("o"), &s("s"), 0).amount, 40);
    assert_eq!(
        table.consume_allowance(&s("o"), &s("s"), 41, 0),
        Err(ContractError::Unauthorized)
    );
    assert_eq!(table.check_allowance(&s("o"), &s("s"), 41, 0), Err(ContractError::Unauthorized));
    assert_eq!(table.allowance(&s("o"), &s("s"), 0).amount, 40);
    assert_eq!(table.consume_allowance(&s("o"), &s("s"), 40, 0), Ok(()));
    assert_eq!(table.allowance(&s("o"), &s("s"), 0).amount, 0);
    assert_eq!(
        table.consume_allowance(&s("stranger"), &s("s"), 1, 0),
        Err(ContractError::Unauthorized)
    );
}

#[test]
fn an_expired_allowance_counts_as_none() {
    let mut table = AllowanceTable::new();
    table.increase_allowance(&s("o"), &s("s"), 100, Some(50), 10).unwrap();
    assert_eq!(table.consume_allowance(&s("o"), &s("s"), 10, 50), Ok(()));
    assert_eq!(
        table.consume_allowance(&s("o"), &s("s"), 10, 51),
        Err(ContractError::Expired)
    );
    assert_eq!(
        table.consume_allowance(&s("o"), &s("s"), 0, 51),
        Err(ContractError::Expired)
    );
    assert_eq!(table.check_allowance(&s("o"), &s("s"), 1000, 51), Err(ContractError::Expired));
    assert_eq!(
        table.allowance(&s("o"), &s("s"), 51),
        Allowance { amount: 0, expiration: None }
    );
    assert_eq!(
        table.allowance(&s("o"), &s("s"), 50),
        Allowance { amount: 90, expiration: Some(50) }
    );
    assert_eq!(
        table.increase_allowance(&s("o"), &s("s"), 5, None, 51),
        Ok(Allowance { amount: 5, expiration: None })
    );
    assert_eq!(table.consume_allowance(&s("o"), &s("s"), 5, 1000), Ok(()));
}

#[test]
fn a_decrease_of_an_expired_allowance_leaves_nothing() {
    let mut table = AllowanceTable::new();
    table.increase_allowance(&s("o"), &s("s"), 100, Some(50), 10).unwrap();
    assert_eq!(
        table.decrease_allowance(&s("o"), &s("s"), 1, Some(70), 60),
        Allowance { amount: 0, expiration: Some(70) }
    );
}

#[test]
fn an_allowance_expires_after_its_expiration() {
    let a = Allowance { amount: 1, expiration: Some(5) };
    assert!(!expired(&a, 4));
    assert!(!expired(&a, 5));
    assert!(expired(&a, 6));
    assert!(!expired(&Allowance { amount: 1, expiration: None }, u64::MAX));
}

#[test]
fn an_account_lists_what_it_granted_and_received() {
    let mut table = AllowanceTable::new();
    table.increase_allowance(&s("alice"), &s("bob"), 10, None, 0).unwrap();
    table.increase_allowance(&s("alice"), &s("carol"), 20, Some(9), 0).unwrap();
    table.increase_allowance(&s("bob"), &s("carol"), 30, None, 0).unwrap();
    table.increase_allowance(&s("alice"), &s("bob"), 5, None, 0).unwrap();
    assert_eq!(
        table.granted_by(&s("alice")),
        vec![
            (s("bob"), Allowance { amount: 15, expiration: None }),
            (s("carol"), Allowance { amount: 20, expiration: Some(9) })
        ]
    );
    assert_eq!(
        table.received_by(&s("carol")),
        vec![
            (s("alice"), Allowance { amount: 20, expiration: Some(9) }),
            (s("bob"), Allowance { amount: 30, expiration: None })
        ]
    );
    assert_eq!(table.granted_by(&s("carol")), vec![]);
    assert_eq!(table.received_by(&s("alice")), vec![]);
    assert_eq!(
        table.received_by(&s("bob")),
        vec![(s("alice"), Allowance { amount: 15, expiration: None })]
    );
}
