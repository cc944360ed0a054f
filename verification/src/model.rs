//! The mathematical model of a deployment: every record by its key, the
//! event log, and what each operation does to them.
//!
//! An operation either fails and leaves the state as it was, or succeeds
//! and yields the next state. Nothing in between is ever visible.

use vstd::prelude::*;
use crate::address::RecordKey;
use crate::admin::{
    spec_initialize, spec_pause_contract, spec_set_chain_cluster, spec_set_core_address,
    spec_set_governance_address, spec_set_push_token_address, spec_transfer_admin_ownership,
    spec_unpause_contract,
};
use crate::dispatcher::channel_alias_event;
use crate::errors::{LedgerError, PushCommError};
use crate::events::EventView;
use crate::identity::Identity;
use crate::preference::spec_set_user_notification_settings;
use crate::state::{
    DelegatedNotificationSenders, PushCommStorageV3View, Subscription, UserNotificationSettingsView,
    UserStorage,
};
use crate::subscription::{spec_subscribe, spec_unsubscribe_record};
use crate::text::is_channel_alias;

verus! {

/// The state of a deployment.
#[verifier::ext_equal]
pub struct LedgerView {
    /// The singleton configuration, once `initialize` has run.
    pub config: Option<PushCommStorageV3View>,
    /// User accounts, by `RecordKey::UserStorage`.
    pub users: Map<RecordKey, UserStorage>,
    /// Memberships, by `RecordKey::Subscription`.
    pub subscriptions: Map<RecordKey, Subscription>,
    /// Delegate permissions, by `RecordKey::Delegate`.
    pub delegates: Map<RecordKey, DelegatedNotificationSenders>,
    /// Notification preferences, by `RecordKey::UserNotifSettings`.
    pub settings: Map<RecordKey, UserNotificationSettingsView>,
    /// Everything emitted so far, oldest first.
    pub events: Seq<EventView>,
}

impl LedgerView {
    /// A deployment before anything has happened.
    pub open spec fn empty() -> LedgerView {
        LedgerView {
            config: None,
            users: Map::empty(),
            subscriptions: Map::empty(),
            delegates: Map::empty(),
            settings: Map::empty(),
            events: Seq::empty(),
        }
    }

    /// The account of `user`; a blank one if none was created yet.
    pub open spec fn user(self, user: Identity) -> UserStorage {
        let key = RecordKey::UserStorage { user };
        if self.users.contains_key(key) {
            self.users[key]
        } else {
            UserStorage::blank()
        }
    }

    /// The membership of `user` in `channel`; a blank one if none exists.
    pub open spec fn subscription(self, user: Identity, channel: Identity) -> Subscription {
        let key = RecordKey::Subscription { user, channel };
        if self.subscriptions.contains_key(key) {
            self.subscriptions[key]
        } else {
            Subscription::blank()
        }
    }

    /// The permission of `delegate` for `channel`; a blank one if none
    /// exists.
    pub open spec fn delegation(
        self,
        channel: Identity,
        delegate: Identity,
    ) -> DelegatedNotificationSenders {
        let key = RecordKey::Delegate { channel, delegate };
        if self.delegates.contains_key(key) {
            self.delegates[key]
        } else {
            DelegatedNotificationSenders::blank()
        }
    }

    /// Whether `user` receives `channel`.
    pub open spec fn is_subscribed(self, user: Identity, channel: Identity) -> bool {
        self.subscription(user, channel).is_subscribed
    }

    /// The subscription counter of `user`.
    pub open spec fn subscribe_count(self, user: Identity) -> u64 {
        self.user(user).user_subscribe_count
    }

    /// The channels that `user` receives.
    pub open spec fn subscribed_channels(self, user: Identity) -> Set<Identity> {
        Set::new(|channel: Identity| self.is_subscribed(user, channel))
    }

    /// Whether `delegate` may send for `channel`.
    pub open spec fn is_delegate(self, channel: Identity, delegate: Identity) -> bool {
        self.delegation(channel, delegate).is_delegate
    }

    /// The stored preference of `user` for `channel`, if any was written.
    pub open spec fn notification_settings(self, user: Identity, channel: Identity) -> Option<
        Seq<char>,
    > {
        let key = RecordKey::UserNotifSettings { user, channel };
        if self.settings.contains_key(key) {
            Some(self.settings[key].notif_settings)
        } else {
            None
        }
    }

    /// The users whose account is activated.
    pub open spec fn activated_users(self) -> Set<Identity> {
        Set::new(|user: Identity| self.user(user).user_activated)
    }

    /// The deployment's user counter; zero before the configuration exists.
    pub open spec fn user_count(self) -> u64 {
        match self.config {
            Some(config) => config.user_count,
            None => 0,
        }
    }

    /// Every user's counter equals the number of channels the user receives.
    pub open spec fn counts_match(self) -> bool {
        forall|user: Identity|
            #![trigger self.subscribed_channels(user)]
            self.subscribed_channels(user).finite() && self.subscribed_channels(user).len()
                == self.subscribe_count(user)
    }

    /// An active permission names the channel and the delegate it is stored
    /// under.
    pub open spec fn delegates_match(self) -> bool {
        forall|channel: Identity, delegate: Identity|
            #![trigger self.delegation(channel, delegate)]
            self.is_delegate(channel, delegate) ==> self.delegation(channel, delegate).channel
                == channel && self.delegation(channel, delegate).delegate == delegate
    }

    /// The deployment's user counter equals the number of activated users.
    pub open spec fn activations_match(self) -> bool {
        self.activated_users().finite() && self.activated_users().len() == self.user_count()
    }

    /// The invariant of a deployment. It holds of the empty deployment and
    /// every operation keeps it.
    pub open spec fn consistent(self) -> bool {
        self.counts_match() && self.delegates_match() && self.activations_match()
    }

    /// Writes the configuration for the first time.
    pub open spec fn initialize(self, push_admin: Identity, chain_cluster: Seq<char>) -> Result<
        LedgerView,
        LedgerError,
    > {
        if self.config is Some {
            Err(LedgerError::AlreadyInitialized)
        } else {
            Ok(
                LedgerView {
                    config: Some(
                        spec_initialize(PushCommStorageV3View::blank(), push_admin, chain_cluster),
                    ),
                    ..self
                },
            )
        }
    }

    /// Applies an administrative change to the configuration.
    pub open spec fn update_config(
        self,
        change: spec_fn(PushCommStorageV3View) -> Result<PushCommStorageV3View, PushCommError>,
    ) -> Result<LedgerView, LedgerError> {
        match self.config {
            None => Err(LedgerError::NotInitialized),
            Some(config) => match change(config) {
                Err(e) => Err(LedgerError::Program(e)),
                Ok(changed) => Ok(LedgerView { config: Some(changed), ..self }),
            },
        }
    }

    /// Replaces the governance authority.
    pub open spec fn set_governance_address(self, signer: Identity, governance: Identity) -> Result<
        LedgerView,
        LedgerError,
    > {
        self.update_config(
            |config: PushCommStorageV3View| spec_set_governance_address(config, signer, governance),
        )
    }

    /// Replaces the address of the linked core module.
    pub open spec fn set_core_address(self, signer: Identity, core_address: Identity) -> Result<
        LedgerView,
        LedgerError,
    > {
        self.update_config(
            |config: PushCommStorageV3View| spec_set_core_address(config, signer, core_address),
        )
    }

    /// Replaces the address of the linked token module.
    pub open spec fn set_push_token_address(
        self,
        signer: Identity,
        token_address: Identity,
    ) -> Result<LedgerView, LedgerError> {
        self.update_config(
            |config: PushCommStorageV3View|
                spec_set_push_token_address(config, signer, token_address),
        )
    }

    /// Replaces the chain-cluster tag.
    pub open spec fn set_chain_cluster(self, signer: Identity, chain_cluster: Seq<char>) -> Result<
        LedgerView,
        LedgerError,
    > {
        self.update_config(
            |config: PushCommStorageV3View| spec_set_chain_cluster(config, signer, chain_cluster),
        )
    }

    /// Pauses the deployment.
    pub open spec fn pause_contract(self, signer: Identity) -> Result<LedgerView, LedgerError> {
        self.update_config(|config: PushCommStorageV3View| spec_pause_contract(config, signer))
    }

    /// Resumes the deployment.
    pub open spec fn unpause_contract(self, signer: Identity) -> Result<LedgerView, LedgerError> {
        self.update_config(|config: PushCommStorageV3View| spec_unpause_contract(config, signer))
    }

    /// Hands the channel-admin role to `new_owner`.
    pub open spec fn transfer_admin_ownership(
        self,
        signer: Identity,
        new_owner: Identity,
    ) -> Result<LedgerView, LedgerError> {
        self.update_config(
            |config: PushCommStorageV3View|
                spec_transfer_admin_ownership(config, signer, new_owner),
        )
    }

    /// Announces a channel alias.
    pub open spec fn verify_channel_alias(
        self,
        signer: Identity,
        channel_address: Seq<char>,
    ) -> Result<LedgerView, LedgerError> {
        match self.config {
            None => Err(LedgerError::NotInitialized),
            Some(config) => if is_channel_alias(channel_address) {
                Ok(
                    LedgerView {
                        events: self.events.push(
                            channel_alias_event(config.chain_cluster, signer, channel_address),
                        ),
                        ..self
                    },
                )
            } else {
                Err(LedgerError::Program(PushCommError::InvalidArgument))
            },
        }
    }

    /// Subscribes `signer` to `channel` at ledger time `slot`.
    pub open spec fn subscribe(self, signer: Identity, channel: Identity, slot: u64) -> Result<
        LedgerView,
        LedgerError,
    > {
        match self.config {
            None => Err(LedgerError::NotInitialized),
            Some(config) => match spec_subscribe(
                self.user(signer),
                self.subscription(signer, channel),
                config,
                signer,
                channel,
                slot,
            ) {
                Err(e) => Err(LedgerError::Program(e)),
                Ok(outcome) => Ok(
                    LedgerView {
                        config: Some(outcome.config),
                        users: self.users.insert(
                            RecordKey::UserStorage { user: signer },
                            outcome.user,
                        ),
                        subscriptions: self.subscriptions.insert(
                            RecordKey::Subscription { user: signer, channel },
                            outcome.subscription,
                        ),
                        events: self.events + outcome.emitted,
                        ..self
                    },
                ),
            },
        }
    }

    /// Unsubscribes `signer` from `channel`. The membership record is
    /// reclaimed when it is switched off.
    pub open spec fn unsubscribe(self, signer: Identity, channel: Identity) -> Result<
        LedgerView,
        LedgerError,
    > {
        if self.config is None {
            Err(LedgerError::NotInitialized)
        } else if !self.is_subscribed(signer, channel) {
            Ok(self)
        } else {
            match spec_unsubscribe_record(
                self.user(signer),
                self.subscription(signer, channel),
                signer,
                channel,
            ) {
                Err(e) => Err(LedgerError::Program(e)),
                Ok((user, subscription, emitted)) => Ok(
                    LedgerView {
                        users: self.users.insert(RecordKey::UserStorage { user: signer }, user),
                        subscriptions: self.subscriptions.remove(
                            RecordKey::Subscription { user: signer, channel },
                        ),
                        events: self.events + emitted,
                        ..self
                    },
                ),
            }
        }
    }

    /// Stores the preference of `signer` for `channel`.
    pub open spec fn set_user_notification_settings(
        self,
        signer: Identity,
        channel: Identity,
        notif_id: u64,
        notif_settings: Seq<char>,
    ) -> Result<LedgerView, LedgerError> {
        match spec_set_user_notification_settings(
            self.subscription(signer, channel),
            signer,
            channel,
            notif_id,
            notif_settings,
        ) {
            Err(e) => Err(LedgerError::Program(e)),
            Ok((record, event)) => Ok(
                LedgerView {
                    settings: self.settings.insert(
                        RecordKey::UserNotifSettings { user: signer, channel },
                        record,
                    ),
                    events: self.events.push(event),
                    ..self
                },
            ),
        }
    }

    /// Allows `delegate` to send for the channel `signer`.
    pub open spec fn add_delegate(self, signer: Identity, delegate: Identity) -> LedgerView {
        if self.is_delegate(signer, delegate) {
            self
        } else {
            LedgerView {
                delegates: self.delegates.insert(
                    RecordKey::Delegate { channel: signer, delegate },
                    DelegatedNotificationSenders { channel: signer, delegate, is_delegate: true },
                ),
                events: self.events.push(EventView::AddDelegate { channel: signer, delegate }),
                ..self
            }
        }
    }

    /// Withdraws the permission of `delegate` to send for the channel
    /// `signer`. The permission record is reclaimed.
    pub open spec fn remove_delegate(self, signer: Identity, delegate: Identity) -> LedgerView {
        if !self.is_delegate(signer, delegate) {
            self
        } else {
            LedgerView {
                delegates: self.delegates.remove(RecordKey::Delegate { channel: signer, delegate }),
                events: self.events.push(EventView::RemoveDelegate { channel: signer, delegate }),
                ..self
            }
        }
    }

    /// Whether `signer` may send for `channel`: it is the channel, or an
    /// active delegate of it.
    pub open spec fn may_send(self, signer: Identity, channel: Identity) -> bool {
        signer == channel || self.is_delegate(channel, signer)
    }

    /// Sends a notification. A signer that may not send is refused, and
    /// nothing is emitted.
    pub open spec fn send_notification(
        self,
        signer: Identity,
        channel: Identity,
        recipient: Identity,
        message: Seq<u8>,
    ) -> Result<LedgerView, LedgerError> {
        if self.may_send(signer, channel) {
            Ok(
                LedgerView {
                    events: self.events.push(
                        EventView::SendNotification { channel, recipient, message },
                    ),
                    ..self
                },
            )
        } else {
            Err(LedgerError::Program(PushCommError::Unauthorized))
        }
    }
}

/// Whether `r` and the state after the call are what `expected` says: on
/// success the next state, on failure the error and the state as it was.
pub open spec fn ledger_outcome(
    expected: Result<LedgerView, LedgerError>,
    before: LedgerView,
    r: Result<(), LedgerError>,
    after: LedgerView,
) -> bool {
    match expected {
        Ok(next) => r is Ok && after == next,
        Err(e) => r == Err::<(), LedgerError>(e) && after == before,
    }
}

} // verus!
