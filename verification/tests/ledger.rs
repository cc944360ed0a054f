use push_comm::errors::{LedgerError, PushCommError};
use push_comm::events::{
    AddDelegate, ChannelAlias, Event, RemoveDelegate, SendNotification, Subscribed, Unsubscribed,
    UserNotificationSettingsAdded,
};
use push_comm::identity::Identity;
use push_comm::ledger::Ledger;
use push_comm::state::{DelegatedNotificationSenders, Subscription, UserStorage};

fn who(byte: u8) -> Identity {
    Identity::new([byte; 32])
}

const ADMIN: u8 = 1;

fn deployment() -> Ledger {
    let mut ledger = Ledger::new();
    assert_eq!(ledger.initialize(who(99), who(ADMIN), "mainnet-beta".to_string()), Ok(()));
    ledger
}

fn program(e: PushCommError) -> Result<(), LedgerError> {
    Err(LedgerError::Program(e))
}

#[test]
fn new_ledger_is_empty() {
    let ledger = Ledger::new();
    assert!(ledger.config().is_none());
    assert_eq!(ledger.events().len(), 0);
    assert_eq!(ledger.user(&who(5)), UserStorage::default());
    assert_eq!(ledger.subscription(&who(5), &who(6)), Subscription::default());
    assert_eq!(ledger.delegation(&who(5), &who(6)), DelegatedNotificationSenders::default());
    assert!(!ledger.is_subscribed(&who(5), &who(6)));
    assert!(!ledger.is_delegate(&who(5), &who(6)));
    assert_eq!(ledger.subscribe_count(&who(5)), 0);
    assert_eq!(ledger.notification_settings(&who(5), &who(6)), None);
}

#[test]
fn initialize_runs_exactly_once() {
    let mut ledger = Ledger::new();
    assert_eq!(ledger.initialize(who(99), who(ADMIN), "devnet".to_string()), Ok(()));
    {
        let config = ledger.config().unwrap();
        assert_eq!(config.governance, who(ADMIN));
        assert_eq!(config.push_channel_admin, who(ADMIN));
        assert_eq!(config.chain_cluster, "devnet");
        assert_eq!(config.user_count, 0);
        assert!(!config.paused);
        assert!(config.push_core_address.is_null());
        assert!(config.push_token_ntt.is_null());
    }
    assert_eq!(
        ledger.initialize(who(99), who(2), "testnet".to_string()),
        Err(LedgerError::AlreadyInitialized)
    );
    let config = ledger.config().unwrap();
    assert_eq!(config.governance, who(ADMIN));
    assert_eq!(config.chain_cluster, "devnet");
}

#[test]
fn operations_on_the_configuration_need_it() {
    let mut ledger = Ledger::new();
    let missing = Err(LedgerError::NotInitialized);
    assert_eq!(ledger.set_governance_address(who(1), who(2)), missing);
    assert_eq!(ledger.set_core_address(who(1), who(2)), missing);
    assert_eq!(ledger.set_push_token_address(who(1), who(2)), missing);
    assert_eq!(ledger.set_chain_cluster(who(1), "x".to_string()), missing);
    assert_eq!(ledger.pause_contract(who(1)), missing);
    assert_eq!(ledger.unpause_contract(who(1)), missing);
    assert_eq!(ledger.transfer_admin_ownership(who(1), who(2)), missing);
    assert_eq!(
        ledger.verify_channel_alias(who(1), "0x1111111111111111111111111111111111111111".into()),
        missing
    );
    assert_eq!(ledger.subscribe(who(1), who(2), 5), missing);
    assert_eq!(ledger.unsubscribe(who(1), who(2)), missing);
    assert!(ledger.config().is_none());
    assert_eq!(ledger.events().len(), 0);
    assert_eq!(ledger.subscribe_count(&who(1)), 0);
}

#[test]
fn subscribe_then_unsubscribe_restores_count_and_flag() {
    let mut ledger = deployment();
    let user = who(5);
    assert_eq!(ledger.subscribe(user, who(6), 10), Ok(()));
    assert_eq!(ledger.subscribe(user, who(7), 11), Ok(()));
    let count_before = ledger.subscribe_count(&user);
    let flag_before = ledger.is_subscribed(&user, &who(8));
    assert_eq!(count_before, 2);
    assert!(!flag_before);

    assert_eq!(ledger.subscribe(user, who(8), 12), Ok(()));
    assert_eq!(ledger.subscribe_count(&user), 3);
    assert!(ledger.is_subscribed(&user, &who(8)));
    assert_eq!(ledger.unsubscribe(user, who(8)), Ok(()));

    assert_eq!(ledger.subscribe_count(&user), count_before);
    assert_eq!(ledger.is_subscribed(&user, &who(8)), flag_before);
    assert!(ledger.is_subscribed(&user, &who(6)));
    assert!(ledger.is_subscribed(&user, &who(7)));
}

#[test]
fn round_trip_of_a_first_subscription_leaves_an_activated_account() {
    let mut ledger = deployment();
    assert_eq!(ledger.subscribe(who(5), who(6), 10), Ok(()));
    assert_eq!(ledger.unsubscribe(who(5), who(6)), Ok(()));
    assert_eq!(
        ledger.user(&who(5)),
        UserStorage { user_activated: true, user_start_block: 10, user_subscribe_count: 0 }
    );
    assert_eq!(ledger.config().unwrap().user_count, 1);
    assert!(!ledger.is_subscribed(&who(5), &who(6)));
}

#[test]
fn subscribing_twice_counts_once() {
    let mut ledger = deployment();
    assert_eq!(ledger.subscribe(who(5), who(6), 10), Ok(()));
    assert_eq!(ledger.subscribe(who(5), who(6), 20), Ok(()));
    assert_eq!(ledger.subscribe_count(&who(5)), 1);
    assert!(ledger.is_subscribed(&who(5), &who(6)));
    assert_eq!(ledger.user(&who(5)).user_start_block, 10);
    assert_eq!(ledger.config().unwrap().user_count, 1);
    assert_eq!(ledger.events().len(), 1);
    assert_eq!(
        ledger.events().get(0),
        Some(&Event::Subscribed(Subscribed { user: who(5), channel: who(6) }))
    );
}

#[test]
fn unsubscribing_twice_counts_once() {
    let mut ledger = deployment();
    assert_eq!(ledger.subscribe(who(5), who(6), 10), Ok(()));
    assert_eq!(ledger.subscribe(who(5), who(7), 10), Ok(()));
    assert_eq!(ledger.unsubscribe(who(5), who(6)), Ok(()));
    assert_eq!(ledger.unsubscribe(who(5), who(6)), Ok(()));
    assert_eq!(ledger.subscribe_count(&who(5)), 1);
    assert_eq!(ledger.events().len(), 3);
    assert_eq!(
        ledger.events().get(2),
        Some(&Event::Unsubscribed(Unsubscribed { user: who(5), channel: who(6) }))
    );
    // Unsubscribing without ever subscribing changes nothing and creates nothing.
    assert_eq!(ledger.unsubscribe(who(9), who(6)), Ok(()));
    assert_eq!(ledger.user(&who(9)), UserStorage::default());
    assert_eq!(ledger.events().len(), 3);
    assert_eq!(ledger.config().unwrap().user_count, 1);
}

#[test]
fn counters_follow_the_memberships() {
    let mut ledger = deployment();
    let users = [who(10), who(11), who(12)];
    let channels = [who(20), who(21), who(22), who(23)];
    let mut expected = [[false; 4]; 3];
    // A fixed, scrambled sequence of subscribe and unsubscribe calls.
    let mut state: u32 = 12345;
    for step in 0..200u64 {
        state = state.wrapping_mul(1103515245).wrapping_add(12345);
        let u = ((state >> 16) % 3) as usize;
        let c = ((state >> 20) % 4) as usize;
        let on = (state >> 25) % 2 == 0;
        if on {
            assert_eq!(ledger.subscribe(users[u], channels[c], step), Ok(()));
        } else {
            assert_eq!(ledger.unsubscribe(users[u], channels[c]), Ok(()));
        }
        expected[u][c] = on;
        for i in 0..3 {
            let mut count = 0;
            for j in 0..4 {
                assert_eq!(ledger.is_subscribed(&users[i], &channels[j]), expected[i][j]);
                if expected[i][j] {
                    count += 1;
                }
            }
            assert_eq!(ledger.subscribe_count(&users[i]), count);
        }
    }
}

#[test]
fn user_count_grows_with_each_new_user_only() {
    let mut ledger = deployment();
    assert_eq!(ledger.subscribe(who(5), who(6), 10), Ok(()));
    assert_eq!(ledger.config().unwrap().user_count, 1);
    assert_eq!(ledger.subscribe(who(5), who(7), 11), Ok(()));
    assert_eq!(ledger.config().unwrap().user_count, 1);
    assert_eq!(ledger.subscribe(who(8), who(6), 12), Ok(()));
    assert_eq!(ledger.config().unwrap().user_count, 2);
    assert_eq!(ledger.unsubscribe(who(5), who(6)), Ok(()));
    assert_eq!(ledger.unsubscribe(who(5), who(7)), Ok(()));
    assert_eq!(ledger.config().unwrap().user_count, 2);
    assert_eq!(ledger.subscribe(who(5), who(6), 13), Ok(()));
    assert_eq!(ledger.config().unwrap().user_count, 2);
    assert_eq!(ledger.user(&who(5)).user_start_block, 10);
    assert_eq!(ledger.user(&who(8)).user_start_block, 12);
}

#[test]
fn governance_change_through_the_ledger() {
    let mut ledger = deployment();
    assert_eq!(
        ledger.set_governance_address(who(3), who(4)),
        program(PushCommError::Unauthorized)
    );
    assert_eq!(ledger.config().unwrap().governance, who(ADMIN));
    assert_eq!(ledger.set_governance_address(who(ADMIN), who(4)), Ok(()));
    assert_eq!(ledger.config().unwrap().governance, who(4));
    // The channel admin is still the first admin, but no longer governance.
    assert_eq!(
        ledger.set_governance_address(who(ADMIN), who(5)),
        program(PushCommError::Unauthorized)
    );
    assert_eq!(ledger.set_governance_address(who(4), who(5)), Ok(()));
    assert_eq!(ledger.config().unwrap().governance, who(5));
    assert_eq!(ledger.config().unwrap().push_channel_admin, who(ADMIN));
}

#[test]
fn admin_changes_through_the_ledger() {
    let mut ledger = deployment();
    assert_eq!(ledger.set_core_address(who(3), who(4)), program(PushCommError::Unauthorized));
    assert_eq!(ledger.set_core_address(who(ADMIN), who(4)), Ok(()));
    assert_eq!(ledger.set_push_token_address(who(ADMIN), who(5)), Ok(()));
    assert_eq!(ledger.set_chain_cluster(who(ADMIN), "devnet".to_string()), Ok(()));
    assert_eq!(ledger.transfer_admin_ownership(who(ADMIN), who(6)), Ok(()));
    let config = ledger.config().unwrap();
    assert_eq!(config.push_core_address, who(4));
    assert_eq!(config.push_token_ntt, who(5));
    assert_eq!(config.chain_cluster, "devnet");
    assert_eq!(config.push_channel_admin, who(6));
    assert_eq!(config.governance, who(ADMIN));
    assert_eq!(ledger.set_core_address(who(ADMIN), who(7)), program(PushCommError::Unauthorized));
    assert_eq!(
        ledger.transfer_admin_ownership(who(6), Identity::default()),
        program(PushCommError::InvalidArgument)
    );
}

#[test]
fn pause_gating_through_the_ledger() {
    let mut ledger = deployment();
    assert_eq!(ledger.pause_contract(who(ADMIN)), Ok(()));
    assert_eq!(ledger.pause_contract(who(ADMIN)), program(PushCommError::AlreadyPaused));
    assert!(ledger.config().unwrap().paused);
    assert_eq!(
        ledger.transfer_admin_ownership(who(ADMIN), who(6)),
        program(PushCommError::ContractPaused)
    );
    assert_eq!(ledger.unpause_contract(who(ADMIN)), Ok(()));
    assert_eq!(ledger.unpause_contract(who(ADMIN)), program(PushCommError::NotPaused));
    assert_eq!(ledger.pause_contract(who(ADMIN)), Ok(()));
    assert!(ledger.config().unwrap().paused);
    assert_eq!(ledger.pause_contract(who(2)), program(PushCommError::Unauthorized));
    assert_eq!(ledger.unpause_contract(who(2)), program(PushCommError::Unauthorized));
}

#[test]
fn delegate_sends_through_the_ledger() {
    let mut ledger = Ledger::new();
    let channel = who(5);
    let delegate = who(6);
    let stranger = who(7);
    let recipient = who(8);
    assert_eq!(ledger.add_delegate(channel, delegate), Ok(()));
    assert!(ledger.is_delegate(&channel, &delegate));
    assert!(!ledger.is_delegate(&delegate, &channel));
    assert_eq!(
        ledger.delegation(&channel, &delegate),
        DelegatedNotificationSenders { channel, delegate, is_delegate: true }
    );
    assert_eq!(ledger.events().len(), 1);

    assert_eq!(ledger.send_notification(delegate, channel, recipient, b"m".to_vec()), Ok(()));
    assert_eq!(ledger.events().len(), 2);
    assert_eq!(
        ledger.events().get(1),
        Some(&Event::SendNotification(SendNotification {
            channel,
            recipient,
            message: b"m".to_vec(),
        }))
    );

    assert_eq!(
        ledger.send_notification(stranger, channel, recipient, b"m".to_vec()),
        program(PushCommError::Unauthorized)
    );
    assert_eq!(ledger.events().len(), 2);
    // Sending creates no permission.
    assert_eq!(ledger.delegation(&channel, &stranger), DelegatedNotificationSenders::default());

    // A delegate of the channel is no delegate of another channel.
    assert_eq!(
        ledger.send_notification(delegate, who(9), recipient, b"m".to_vec()),
        program(PushCommError::Unauthorized)
    );
    assert_eq!(ledger.events().len(), 2);

    // The channel itself may always send.
    assert_eq!(ledger.send_notification(channel, channel, recipient, vec![]), Ok(()));
    assert_eq!(ledger.events().len(), 3);
}

#[test]
fn delegate_toggle_through_the_ledger() {
    let mut ledger = Ledger::new();
    let channel = who(5);
    let delegate = who(6);
    assert_eq!(ledger.remove_delegate(channel, delegate), Ok(()));
    assert_eq!(ledger.events().len(), 0);
    assert_eq!(ledger.add_delegate(channel, delegate), Ok(()));
    assert_eq!(ledger.add_delegate(channel, delegate), Ok(()));
    assert_eq!(ledger.events().len(), 1);
    assert_eq!(
        ledger.events().get(0),
        Some(&Event::AddDelegate(AddDelegate { channel, delegate }))
    );
    assert_eq!(ledger.remove_delegate(channel, delegate), Ok(()));
    assert_eq!(ledger.remove_delegate(channel, delegate), Ok(()));
    assert_eq!(ledger.events().len(), 2);
    assert_eq!(
        ledger.events().get(1),
        Some(&Event::RemoveDelegate(RemoveDelegate { channel, delegate }))
    );
    assert!(!ledger.is_delegate(&channel, &delegate));
    assert_eq!(
        ledger.send_notification(delegate, channel, who(8), vec![1]),
        program(PushCommError::Unauthorized)
    );
    assert_eq!(ledger.events().len(), 2);
    // Granting again after a withdrawal works.
    assert_eq!(ledger.add_delegate(channel, delegate), Ok(()));
    assert!(ledger.is_delegate(&channel, &delegate));
    assert_eq!(ledger.events().len(), 3);
}

#[test]
fn alias_through_the_ledger() {
    let mut ledger = deployment();
    assert_eq!(
        ledger.verify_channel_alias(who(5), "abc".to_string()),
        program(PushCommError::InvalidArgument)
    );
    assert_eq!(ledger.events().len(), 0);
    let address = "0x1111111111111111111111111111111111111111";
    assert_eq!(ledger.verify_channel_alias(who(5), address.to_string()), Ok(()));
    assert_eq!(
        ledger.events().get(0),
        Some(&Event::ChannelAlias(ChannelAlias {
            chain_name: "Solana Mainnet".to_string(),
            chain_cluster: "mainnet-beta".to_string(),
            channel: who(5),
            ethereum_channel_address: address.to_string(),
        }))
    );
    assert_eq!(ledger.events().len(), 1);
}

#[test]
fn settings_before_and_after_subscribing() {
    let mut ledger = deployment();
    let user = who(5);
    let channel = who(6);
    assert_eq!(
        ledger.set_user_notification_settings(user, channel, 7, "s".to_string()),
        program(PushCommError::NotSubscribed)
    );
    assert_eq!(ledger.notification_settings(&user, &channel), None);

    assert_eq!(ledger.subscribe(user, channel, 10), Ok(()));
    assert_eq!(
        ledger.set_user_notification_settings(user, channel, 7, "s".repeat(101)),
        program(PushCommError::InvalidArgument)
    );
    assert_eq!(ledger.notification_settings(&user, &channel), None);
    assert_eq!(ledger.events().len(), 1);

    let text = "s".repeat(100);
    assert_eq!(ledger.set_user_notification_settings(user, channel, 7, text.clone()), Ok(()));
    assert_eq!(ledger.notification_settings(&user, &channel), Some(format!("7+{}", text)));
    assert_eq!(
        ledger.events().get(1),
        Some(&Event::UserNotificationSettingsAdded(UserNotificationSettingsAdded {
            channel,
            user,
            notif_id: 7,
            notif_settings: format!("7+{}", text),
        }))
    );
}

#[test]
fn settings_keep_one_slot_per_user_and_channel() {
    let mut ledger = deployment();
    assert_eq!(ledger.subscribe(who(5), who(6), 10), Ok(()));
    assert_eq!(ledger.subscribe(who(5), who(7), 10), Ok(()));
    assert_eq!(ledger.subscribe(who(8), who(6), 10), Ok(()));
    assert_eq!(ledger.set_user_notification_settings(who(5), who(6), 1, "a".into()), Ok(()));
    assert_eq!(ledger.set_user_notification_settings(who(5), who(7), 2, "b".into()), Ok(()));
    assert_eq!(ledger.set_user_notification_settings(who(8), who(6), 3, "c".into()), Ok(()));
    assert_eq!(ledger.set_user_notification_settings(who(5), who(6), 4, "d".into()), Ok(()));
    assert_eq!(ledger.notification_settings(&who(5), &who(6)), Some("4+d".to_string()));
    assert_eq!(ledger.notification_settings(&who(5), &who(7)), Some("2+b".to_string()));
    assert_eq!(ledger.notification_settings(&who(8), &who(6)), Some("3+c".to_string()));
    assert_eq!(ledger.notification_settings(&who(8), &who(7)), None);
    // After unsubscribing the slot stays, but it can no longer be written.
    assert_eq!(ledger.unsubscribe(who(5), who(6)), Ok(()));
    assert_eq!(
        ledger.set_user_notification_settings(who(5), who(6), 5, "e".into()),
        program(PushCommError::NotSubscribed)
    );
    assert_eq!(ledger.notification_settings(&who(5), &who(6)), Some("4+d".to_string()));
}

#[test]
fn failed_operations_leave_no_trace() {
    let mut ledger = deployment();
    assert_eq!(ledger.subscribe(who(5), who(6), 10), Ok(()));
    let events = ledger.events().len();
    assert_eq!(ledger.pause_contract(who(7)), program(PushCommError::Unauthorized));
    assert_eq!(
        ledger.set_user_notification_settings(who(5), who(9), 1, "x".into()),
        program(PushCommError::NotSubscribed)
    );
    assert_eq!(
        ledger.verify_channel_alias(who(5), "0x".to_string()),
        program(PushCommError::InvalidArgument)
    );
    assert_eq!(ledger.events().len(), events);
    assert_eq!(ledger.subscribe_count(&who(5)), 1);
    assert!(!ledger.config().unwrap().paused);
    assert_eq!(ledger.config().unwrap().user_count, 1);
}
