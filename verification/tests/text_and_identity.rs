use push_comm::errors::PushCommError;
use push_comm::identity::Identity;
use push_comm::state::{
    DelegatedNotificationSenders, PushCommStorageV3, Subscription, UserNotificationSettings,
    UserStorage, CHAIN_NAME, MAX_NOTIF_SETTINGS_LENGTH, NAME,
};
use push_comm::text::{
    check_channel_alias, check_settings_fit, compose_notif_settings, decimal_string,
    CHANNEL_ALIAS_LENGTH,
};

fn id_text(byte: u8) -> Identity {
    Identity::new([byte; 32])
}

#[test]
fn identity_equality_is_by_bytes() {
    assert_eq!(id_text(3), id_text(3));
    assert_ne!(id_text(3), id_text(4));
    let mut bytes = [9u8; 32];
    bytes[31] = 8;
    assert_ne!(Identity::new(bytes), id_text(9));
    bytes[31] = 9;
    assert_eq!(Identity::new(bytes), id_text(9));
    assert_eq!(id_text(5).to_bytes(), [5u8; 32]);
}

#[test]
fn default_identity_is_null() {
    assert!(Identity::default().is_null());
    assert_eq!(Identity::default(), Identity::new([0u8; 32]));
    assert!(!id_text(1).is_null());
    let mut bytes = [0u8; 32];
    bytes[17] = 1;
    assert!(!Identity::new(bytes).is_null());
}

#[test]
fn decimal_string_of_small_numbers() {
    assert_eq!(decimal_string(0), "0");
    assert_eq!(decimal_string(7), "7");
    assert_eq!(decimal_string(9), "9");
    assert_eq!(decimal_string(10), "10");
    assert_eq!(decimal_string(42), "42");
    assert_eq!(decimal_string(100), "100");
    assert_eq!(decimal_string(1234567890), "1234567890");
}

#[test]
fn decimal_string_of_the_largest_number() {
    assert_eq!(decimal_string(u64::MAX), "18446744073709551615");
}

#[test]
fn decimal_string_agrees_with_the_standard_rendering() {
    let mut n: u64 = 1;
    for _ in 0..64 {
        assert_eq!(decimal_string(n), n.to_string());
        assert_eq!(decimal_string(n / 7), (n / 7).to_string());
        n = n.wrapping_mul(3).wrapping_add(11);
    }
}

#[test]
fn composed_settings_are_id_plus_text() {
    assert_eq!(compose_notif_settings(7, "abc"), "7+abc");
    assert_eq!(compose_notif_settings(0, ""), "0+");
    assert_eq!(compose_notif_settings(15, "1-0+2-50"), "15+1-0+2-50");
    assert_eq!(compose_notif_settings(u64::MAX, "x"), "18446744073709551615+x");
}

#[test]
fn settings_bound_is_one_hundred_bytes() {
    assert_eq!(MAX_NOTIF_SETTINGS_LENGTH, 100);
    assert!(check_settings_fit(""));
    assert!(check_settings_fit(&"s".repeat(100)));
    assert!(!check_settings_fit(&"s".repeat(101)));
    // 50 two-byte characters are 100 bytes; one more byte is too long.
    assert!(check_settings_fit(&"é".repeat(50)));
    assert!(!check_settings_fit(&format!("{}a", "é".repeat(50))));
}

#[test]
fn alias_must_be_forty_two_bytes_starting_with_0x() {
    assert_eq!(CHANNEL_ALIAS_LENGTH, 42);
    assert!(check_channel_alias("0x1111111111111111111111111111111111111111"));
    assert!(check_channel_alias(&format!("0x{}", "ab".repeat(20))));
    assert!(!check_channel_alias("abc"));
    assert!(!check_channel_alias(""));
    assert!(!check_channel_alias("0x"));
    assert!(!check_channel_alias(&format!("0x{}", "1".repeat(39))));
    assert!(!check_channel_alias(&format!("0x{}", "1".repeat(41))));
    assert!(!check_channel_alias(&"1".repeat(42)));
    assert!(!check_channel_alias(&format!("0X{}", "1".repeat(40))));
    assert!(!check_channel_alias(&format!("x0{}", "1".repeat(40))));
}

#[test]
fn alias_length_counts_bytes() {
    // 42 bytes, but only 41 characters.
    let address = format!("0x{}é", "1".repeat(38));
    assert_eq!(address.len(), 42);
    assert!(check_channel_alias(&address));
    // 42 characters, but 43 bytes.
    let address = format!("0x{}é", "1".repeat(39));
    assert_eq!(address.chars().count(), 42);
    assert!(!check_channel_alias(&address));
    // A two-byte first character cannot stand for the prefix.
    let address = format!("é{}", "1".repeat(40));
    assert_eq!(address.len(), 42);
    assert!(!check_channel_alias(&address));
}

#[test]
fn error_messages() {
    assert_eq!(PushCommError::Unauthorized.message(), "Unauthorized access");
    assert_eq!(PushCommError::InvalidArgument.message(), "Invalid argument provided");
    assert_eq!(PushCommError::AlreadyPaused.message(), "Program is currently paused");
    assert_eq!(PushCommError::NotPaused.message(), "Program is not paused");
    assert_eq!(PushCommError::ContractPaused.message(), "Contract is Paused");
    assert_eq!(PushCommError::InvalidSignature.message(), "Invalid Signature Parameters");
    assert_eq!(PushCommError::AlreadySubscribed.message(), "Already Subscribed to this channel");
    assert_eq!(PushCommError::NotSubscribed.message(), "Not Subscribed to this channel");
    assert_eq!(PushCommError::Underflow.message(), "Underflow Error");
    assert_eq!(PushCommError::Overflow.message(), "Overflow Error");
    assert_eq!(PushCommError::DelegateAlreadyAdded.message(), "Delegate Already Added");
    assert_eq!(PushCommError::DelegateNotFound.message(), "Delegate Not Added or Removed");
}

#[test]
fn constants_of_the_deployment() {
    assert_eq!(NAME, "Push Comm V3");
    assert_eq!(CHAIN_NAME, "Solana Mainnet");
}

#[test]
fn fresh_records_are_blank() {
    let config = PushCommStorageV3::default();
    assert!(config.governance.is_null());
    assert!(config.push_channel_admin.is_null());
    assert_eq!(config.chain_cluster, "");
    assert_eq!(config.user_count, 0);
    assert!(config.push_core_address.is_null());
    assert!(config.push_token_ntt.is_null());
    assert!(!config.paused);
    assert_eq!(
        UserStorage::default(),
        UserStorage { user_activated: false, user_start_block: 0, user_subscribe_count: 0 }
    );
    assert_eq!(Subscription::default(), Subscription { is_subscribed: false });
    let delegation = DelegatedNotificationSenders::default();
    assert!(delegation.channel.is_null() && delegation.delegate.is_null());
    assert!(!delegation.is_delegate);
    let settings = UserNotificationSettings::default();
    assert!(settings.channel.is_null() && settings.user.is_null());
    assert_eq!(settings.notif_settings, "");
}

#[test]
fn duplicates_equal_what_they_copy() {
    let config = PushCommStorageV3 {
        governance: id_text(1),
        push_channel_admin: id_text(2),
        chain_cluster: "devnet".to_string(),
        user_count: 5,
        push_core_address: id_text(3),
        push_token_ntt: id_text(4),
        paused: true,
    };
    assert_eq!(config.duplicate(), config);
    let settings = UserNotificationSettings {
        channel: id_text(1),
        user: id_text(2),
        notif_settings: "7+x".to_string(),
    };
    assert_eq!(settings.duplicate(), settings);
}
