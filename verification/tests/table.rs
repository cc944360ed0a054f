use push_comm::address::RecordKey;
use push_comm::identity::Identity;
use push_comm::state::{Subscription, UserStorage};
use push_comm::table::Table;

fn key_user(byte: u8) -> RecordKey {
    RecordKey::UserStorage { user: Identity::new([byte; 32]) }
}

fn account(count: u64) -> UserStorage {
    UserStorage { user_activated: true, user_start_block: 1, user_subscribe_count: count }
}

#[test]
fn empty_table_holds_nothing() {
    let table: Table<UserStorage> = Table::new();
    assert!(!table.contains_key(&key_user(1)));
    assert_eq!(table.get(&key_user(1)), None);
}

#[test]
fn insert_then_get() {
    let mut table: Table<UserStorage> = Table::new();
    table.insert(key_user(1), account(10));
    table.insert(key_user(2), account(20));
    assert_eq!(table.get(&key_user(1)), Some(&account(10)));
    assert_eq!(table.get(&key_user(2)), Some(&account(20)));
    assert_eq!(table.get(&key_user(3)), None);
    assert!(table.contains_key(&key_user(2)));
}

#[test]
fn insert_replaces_the_record_under_the_key() {
    let mut table: Table<UserStorage> = Table::new();
    table.insert(key_user(1), account(10));
    table.insert(key_user(2), account(20));
    table.insert(key_user(1), account(11));
    assert_eq!(table.get(&key_user(1)), Some(&account(11)));
    assert_eq!(table.get(&key_user(2)), Some(&account(20)));
    assert_eq!(table.remove(&key_user(1)), Some(account(11)));
    assert_eq!(table.get(&key_user(1)), None);
}

#[test]
fn remove_reclaims_one_record() {
    let mut table: Table<UserStorage> = Table::new();
    for i in 0..10u8 {
        table.insert(key_user(i), account(i as u64));
    }
    assert_eq!(table.remove(&key_user(0)), Some(account(0)));
    assert_eq!(table.remove(&key_user(0)), None);
    assert_eq!(table.remove(&key_user(9)), Some(account(9)));
    assert_eq!(table.remove(&key_user(4)), Some(account(4)));
    for i in 0..10u8 {
        let expected = if i == 0 || i == 4 || i == 9 { None } else { Some(account(i as u64)) };
        assert_eq!(table.get(&key_user(i)).copied(), expected);
    }
}

#[test]
fn keys_of_different_namespaces_do_not_meet() {
    let a = Identity::new([1; 32]);
    let b = Identity::new([2; 32]);
    let mut table: Table<Subscription> = Table::new();
    table.insert(RecordKey::Subscription { user: a, channel: b }, Subscription { is_subscribed: true });
    assert_eq!(table.get(&RecordKey::Subscription { user: b, channel: a }), None);
    assert_eq!(table.get(&RecordKey::UserNotifSettings { user: a, channel: b }), None);
    assert_eq!(table.get(&RecordKey::Delegate { channel: a, delegate: b }), None);
    assert_eq!(
        table.get(&RecordKey::Subscription { user: a, channel: b }),
        Some(&Subscription { is_subscribed: true })
    );
}
