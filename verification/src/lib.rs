//! Channel-based publish/subscribe notification records: addressing,
//! authority checks, subscription and delegate state, and the event log.
//!
//! Channels broadcast notifications to subscribers, allow delegates to send
//! on their behalf, and let subscribers store a preference per channel. All
//! state lives in records that are found by key; every operation is an
//! atomic, authority-checked step on one or a few of them.
//!
//! The operations come in two layers. The functions at the crate root work
//! on records that the host has already resolved and handed over in a
//! context. [`ledger::Ledger`] is a host in memory: it resolves the keys,
//! creates missing records, calls the same functions, and keeps the
//! counters consistent across calls.

pub mod address;
pub mod admin;
pub mod context;
pub mod delegate;
pub mod dispatcher;
pub mod errors;
pub mod events;
pub mod guard;
pub mod identity;
pub mod ledger;
pub mod lemmas;
pub mod model;
pub mod preference;
mod records;
pub mod state;
pub mod subscription;
pub mod table;
pub mod text;

pub use crate::admin::{
    initialize, pause_contract, set_chain_cluster, set_core_address, set_governance_address,
    set_push_token_address, transfer_admin_ownership, unpause_contract,
};
pub use crate::context::{
    AddDelegateNotifSenders, AdminStorageUpdateCTX, AliasVerificationCTX, InitializeCTX,
    RemoveDelegateNotifSenders, SendNotificationCTX, SubscribeCTX, UnsubscribeCTX,
    UserChannelSettingsCTX,
};
pub use crate::delegate::{add_delegate, remove_delegate};
pub use crate::dispatcher::{send_notification, verify_channel_alias};
pub use crate::preference::set_user_notification_settings;
pub use crate::subscription::{subscribe, unsubscribe};
