use snipix::transaction_history::BlockInfo;
use snipix::viewing_key::{build_key_material, key_from_text, KeyState, KeyTable, ViewingKey};

fn s(text: &str) -> String {
    text.to_string()
}

#[test]
fn a_key_is_derived_from_seed_block_account_and_entropy() {
    let mut table = KeyTable::new();
    let key = table.create_viewing_key(
        &s("alice"),
        &"lolz fun yay".as_bytes().to_vec(),
        &s("some entropy"),
        &BlockInfo { height: 12345, time: 1571797419 },
    );
    assert_eq!(key, ViewingKey(s("api_key_KXfXa6XE7fYDKWZ++0MzeZh++u8URtdUBmjmpSMspIE=")));
    assert!(table.check_viewing_key(&s("alice"), &key.0));
}

#[test]
fn a_key_from_empty_inputs() {
    let mut table = KeyTable::new();
    let key = table.create_viewing_key(
        &s(""),
        &vec![],
        &s(""),
        &BlockInfo { height: 0, time: 0 },
    );
    assert_eq!(key.0, "api_key_N0cI//dxndWXnsh11WzSKG9tPPfsMXo7JWMqqyjsN7s=");
}

#[test]
fn different_entropy_gives_a_different_key() {
    let mut table = KeyTable::new();
    let seed = vec![1u8, 2, 3];
    let block = BlockInfo { height: 1, time: 2 };
    let first = table.create_viewing_key(&s("alice"), &seed, &s("one"), &block);
    let second = table.create_viewing_key(&s("alice"), &seed, &s("two"), &block);
    assert_ne!(first, second);
    assert!(!table.check_viewing_key(&s("alice"), &first.0));
    assert!(table.check_viewing_key(&s("alice"), &second.0));
}

#[test]
fn only_the_key_that_was_set_is_accepted() {
    let mut table = KeyTable::new();
    assert!(!table.check_viewing_key(&s("alice"), &s("key")));
    assert_eq!(table.set_viewing_key(&s("alice"), &s("key")), KeyState::KeyCreated);
    assert!(table.check_viewing_key(&s("alice"), &s("key")));
    assert!(!table.check_viewing_key(&s("alice"), &s("Key")));
    assert!(!table.check_viewing_key(&s("alice"), &s("")));
    assert!(!table.check_viewing_key(&s("bob"), &s("key")));
}

#[test]
fn an_account_goes_from_no_key_to_created_and_through_rotations() {
    let mut table = KeyTable::new();
    assert_eq!(table.key_state(&s("alice")), KeyState::NoKey);
    assert_eq!(table.set_viewing_key(&s("alice"), &s("first")), KeyState::KeyCreated);
    assert_eq!(table.key_state(&s("alice")), KeyState::KeyCreated);
    assert_eq!(table.set_viewing_key(&s("alice"), &s("second")), KeyState::KeyRotated);
    assert_eq!(table.key_state(&s("alice")), KeyState::KeyCreated);
    assert_eq!(table.set_viewing_key(&s("alice"), &s("third")), KeyState::KeyRotated);
    assert_eq!(table.set_viewing_key(&s("alice"), &s("second")), KeyState::KeyRotated);
    assert!(!table.check_viewing_key(&s("alice"), &s("first")));
    assert!(table.check_viewing_key(&s("alice"), &s("second")));
    assert_eq!(table.key_state(&s("bob")), KeyState::NoKey);
    table.create_viewing_key(&s("bob"), &vec![], &s("e"), &BlockInfo { height: 0, time: 0 });
    assert_eq!(table.key_state(&s("bob")), KeyState::KeyCreated);
    assert!(table.check_viewing_key(&s("alice"), &s("second")));
}

#[test]
fn the_material_of_a_key_is_seed_block_account_and_entropy() {
    let material = build_key_material(
        &vec![0xAA, 0xBB],
        &s("al"),
        &s("e!"),
        &BlockInfo { height: 0x0102030405060708, time: 258 },
    );
    assert_eq!(
        material,
        vec![
            0xAA, 0xBB, 1, 2, 3, 4, 5, 6, 7, 8, 0, 0, 0, 0, 0, 0, 1, 2, b'a', b'l', b'e', b'!'
        ]
    );
    assert_eq!(
        build_key_material(&vec![], &s(""), &s(""), &BlockInfo { height: u64::MAX, time: 0 }),
        vec![255, 255, 255, 255, 255, 255, 255, 255, 0, 0, 0, 0, 0, 0, 0, 0]
    );
    assert_eq!(
        build_key_material(&vec![], &s("\u{e9}"), &s(""), &BlockInfo { height: 0, time: 0 })[16..],
        [0xC3, 0xA9]
    );
}

#[test]
fn every_key_begins_with_the_same_prefix() {
    assert_eq!(key_from_text(&s("abc=")), ViewingKey(s("api_key_abc=")));
    assert_eq!(key_from_text(&s("")).0, "api_key_");
}

#[test]
fn the_table_keeps_and_checks_digests() {
    let mut table = KeyTable::new();
    assert!(!table.check_digest(&s("alice"), &vec![1, 2, 3]));
    assert!(!table.check_digest(&s("alice"), &vec![]));
    assert_eq!(table.set_digest(&s("alice"), vec![1, 2, 3]), KeyState::KeyCreated);
    assert!(table.check_digest(&s("alice"), &vec![1, 2, 3]));
    assert!(!table.check_digest(&s("alice"), &vec![1, 2]));
    assert!(!table.check_digest(&s("alice"), &vec![1, 2, 4]));
    assert!(!table.check_digest(&s("bob"), &vec![1, 2, 3]));
    assert_eq!(table.set_digest(&s("alice"), vec![9]), KeyState::KeyRotated);
    assert!(!table.check_digest(&s("alice"), &vec![1, 2, 3]));
    assert!(table.check_digest(&s("alice"), &vec![9]));
    assert_eq!(table.set_digest(&s("bob"), vec![9]), KeyState::KeyCreated);
    assert!(table.check_digest(&s("bob"), &vec![9]));
    assert_eq!(table.key_state(&s("bob")), KeyState::KeyCreated);
}
