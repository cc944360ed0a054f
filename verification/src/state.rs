//! The records kept on the ledger, one struct per kind, and the constants
//! that bound them.

use vstd::prelude::*;
use crate::identity::Identity;

verus! {

/// Display name of the deployment.
pub const NAME: &'static str = "Push Comm V3";

/// Name of the chain that events are tagged with.
pub const CHAIN_NAME: &'static str = "Solana Mainnet";

/// Longest settings text, in bytes, that a user may store for a channel.
pub const MAX_NOTIF_SETTINGS_LENGTH: usize = 100;

/// The singleton configuration of a deployment.
#[derive(Debug, PartialEq, Eq)]
pub struct PushCommStorageV3 {
    /// The authority allowed to replace itself.
    pub governance: Identity,
    /// The authority allowed to change every other field and the pause flag.
    pub push_channel_admin: Identity,
    /// Tag of the chain cluster the deployment runs on.
    pub chain_cluster: String,
    /// How many users have been activated so far.
    pub user_count: u64,
    /// Address of the linked core module.
    pub push_core_address: Identity,
    /// Address of the linked token module.
    pub push_token_ntt: Identity,
    /// While set, the operations gated by it are refused.
    pub paused: bool,
}

/// Mathematical value of a [`PushCommStorageV3`].
#[verifier::ext_equal]
pub struct PushCommStorageV3View {
    pub governance: Identity,
    pub push_channel_admin: Identity,
    pub chain_cluster: Seq<char>,
    pub user_count: u64,
    pub push_core_address: Identity,
    pub push_token_ntt: Identity,
    pub paused: bool,
}

impl View for PushCommStorageV3 {
    type V = PushCommStorageV3View;

    open spec fn view(&self) -> PushCommStorageV3View {
        PushCommStorageV3View {
            governance: self.governance,
            push_channel_admin: self.push_channel_admin,
            chain_cluster: self.chain_cluster@,
            user_count: self.user_count,
            push_core_address: self.push_core_address,
            push_token_ntt: self.push_token_ntt,
            paused: self.paused,
        }
    }
}

/// Per-user account.
#[derive(Clone, Copy, Debug, PartialEq, Eq)]
pub struct UserStorage {
    /// Set on the user's first subscription and never cleared.
    pub user_activated: bool,
    /// Ledger time at which the user was activated.
    pub user_start_block: u64,
    /// Number of channels the user currently receives.
    pub user_subscribe_count: u64,
}

/// Per (user, channel) membership flag.
#[derive(Clone, Copy, Debug, PartialEq, Eq)]
pub struct Subscription {
    pub is_subscribed: bool,
}

/// Per (channel, delegate) permission to send on the channel's behalf.
#[derive(Clone, Copy, Debug, PartialEq, Eq)]
pub struct DelegatedNotificationSenders {
    pub channel: Identity,
    pub delegate: Identity,
    pub is_delegate: bool,
}

/// Per (user, channel) notification preference: a single slot that the last
/// write wins.
#[derive(Debug, PartialEq, Eq)]
pub struct UserNotificationSettings {
    pub channel: Identity,
    pub user: Identity,
    /// The stored text, `"{id}+{settings}"`.
    pub notif_settings: String,
}

/// Mathematical value of a [`UserNotificationSettings`].
#[verifier::ext_equal]
pub struct UserNotificationSettingsView {
    pub channel: Identity,
    pub user: Identity,
    pub notif_settings: Seq<char>,
}

impl View for UserStorage {
    type V = UserStorage;

    open spec fn view(&self) -> UserStorage {
        *self
    }
}

impl View for Subscription {
    type V = Subscription;

    open spec fn view(&self) -> Subscription {
        *self
    }
}

impl View for DelegatedNotificationSenders {
    type V = DelegatedNotificationSenders;

    open spec fn view(&self) -> DelegatedNotificationSenders {
        *self
    }
}

impl View for UserNotificationSettings {
    type V = UserNotificationSettingsView;

    open spec fn view(&self) -> UserNotificationSettingsView {
        UserNotificationSettingsView {
            channel: self.channel,
            user: self.user,
            notif_settings: self.notif_settings@,
        }
    }
}

impl PushCommStorageV3View {
    /// The configuration slot before `initialize` has filled it.
    pub open spec fn blank() -> PushCommStorageV3View {
        PushCommStorageV3View {
            governance: Identity::null(),
            push_channel_admin: Identity::null(),
            chain_cluster: Seq::empty(),
            user_count: 0,
            push_core_address: Identity::null(),
            push_token_ntt: Identity::null(),
            paused: false,
        }
    }
}

impl UserStorage {
    /// An account that has never subscribed.
    pub open spec fn blank() -> UserStorage {
        UserStorage { user_activated: false, user_start_block: 0, user_subscribe_count: 0 }
    }
}

impl Subscription {
    /// A membership that was never switched on.
    pub open spec fn blank() -> Subscription {
        Subscription { is_subscribed: false }
    }
}

impl DelegatedNotificationSenders {
    /// A permission that was never granted.
    pub open spec fn blank() -> DelegatedNotificationSenders {
        DelegatedNotificationSenders {
            channel: Identity::null(),
            delegate: Identity::null(),
            is_delegate: false,
        }
    }
}

impl UserNotificationSettingsView {
    /// A preference slot that was never written.
    pub open spec fn blank() -> UserNotificationSettingsView {
        UserNotificationSettingsView {
            channel: Identity::null(),
            user: Identity::null(),
            notif_settings: Seq::empty(),
        }
    }
}

impl Default for PushCommStorageV3 {
    fn default() -> (r: Self)
        ensures
            r@ == PushCommStorageV3View::blank(),
    {
        PushCommStorageV3 {
            governance: Identity::default(),
            push_channel_admin: Identity::default(),
            chain_cluster: String::new(),
            user_count: 0,
            push_core_address: Identity::default(),
            push_token_ntt: Identity::default(),
            paused: false,
        }
    }
}

impl Default for UserStorage {
    fn default() -> (r: Self)
        ensures
            r == UserStorage::blank(),
    {
        UserStorage { user_activated: false, user_start_block: 0, user_subscribe_count: 0 }
    }
}

impl Default for Subscription {
    fn default() -> (r: Self)
        ensures
            r == Subscription::blank(),
    {
        Subscription { is_subscribed: false }
    }
}

impl Default for DelegatedNotificationSenders {
    fn default() -> (r: Self)
        ensures
            r == DelegatedNotificationSenders::blank(),
    {
        DelegatedNotificationSenders {
            channel: Identity::default(),
            delegate: Identity::default(),
            is_delegate: false,
        }
    }
}

impl Default for UserNotificationSettings {
    fn default() -> (r: Self)
        ensures
            r@ == UserNotificationSettingsView::blank(),
    {
        UserNotificationSettings {
            channel: Identity::default(),
            user: Identity::default(),
            notif_settings: String::new(),
        }
    }
}

impl PushCommStorageV3 {
    /// An independent copy with the same value.
    pub fn duplicate(&self) -> (r: Self)
        ensures
            r@ == self@,
    {
        PushCommStorageV3 {
            governance: self.governance,
            push_channel_admin: self.push_channel_admin,
            chain_cluster: self.chain_cluster.clone(),
            user_count: self.user_count,
            push_core_address: self.push_core_address,
            push_token_ntt: self.push_token_ntt,
            paused: self.paused,
        }
    }
}

impl UserNotificationSettings {
    /// An independent copy with the same value.
    pub fn duplicate(&self) -> (r: Self)
        ensures
            r@ == self@,
    {
        UserNotificationSettings {
            channel: self.channel,
            user: self.user,
            notif_settings: self.notif_settings.clone(),
        }
    }
}

} // verus!
