//! The working store of a deployment: the records under their keys and the
//! event log.
//!
//! Each operation resolves the keys of the records it names, creates the
//! records that do not exist yet, runs the handler on them, and stores the
//! result only if the handler succeeded. While an operation runs, the store
//! passes through states that are not consistent; an operation starts from a
//! consistent store and leaves one behind.

use vstd::prelude::*;
use crate::address::RecordKey;
use crate::context::{
    AddDelegateNotifSenders, AdminStorageUpdateCTX, AliasVerificationCTX, InitializeCTX,
    RemoveDelegateNotifSenders, SendNotificationCTX, SubscribeCTX, UnsubscribeCTX,
    UserChannelSettingsCTX,
};
use crate::errors::{LedgerError, PushCommError};
use crate::events::EventLog;
use crate::identity::Identity;
use crate::lemmas::{
    lemma_consistent_by_records, lemma_delegate_consistent, lemma_empty_consistent,
    lemma_subscribe_consistent, lemma_unsubscribe_consistent, lemma_unsubscribe_never_underflows,
};
use crate::model::{ledger_outcome, LedgerView};
use crate::state::{
    DelegatedNotificationSenders, PushCommStorageV3, Subscription, UserNotificationSettings,
    UserStorage,
};
use crate::table::Table;

verus! {

/// The records and the event log of a deployment.
pub struct Records {
    config: Option<PushCommStorageV3>,
    users: Table<UserStorage>,
    subscriptions: Table<Subscription>,
    delegates: Table<DelegatedNotificationSenders>,
    settings: Table<UserNotificationSettings>,
    events: EventLog,
}

impl View for Records {
    type V = LedgerView;

    closed spec fn view(&self) -> LedgerView {
        LedgerView {
            config: match self.config {
                Some(config) => Some(config@),
                None => None,
            },
            users: self.users@,
            subscriptions: self.subscriptions@,
            delegates: self.delegates@,
            settings: self.settings@,
            events: self.events@,
        }
    }
}

fn program_result(r: Result<(), PushCommError>) -> (out: Result<(), LedgerError>)
    ensures
        match r {
            Ok(()) => out is Ok,
            Err(e) => out == Err::<(), LedgerError>(LedgerError::Program(e)),
        },
{
    match r {
        Ok(()) => Ok(()),
        Err(e) => Err(LedgerError::Program(e)),
    }
}

impl Records {
    /// An empty store.
    pub fn new() -> (r: Self)
        ensures
            r@.consistent(),
            r@ == LedgerView::empty(),
    {
        let r = Records {
            config: None,
            users: Table::new(),
            subscriptions: Table::new(),
            delegates: Table::new(),
            settings: Table::new(),
            events: EventLog::new(),
        };
        proof {
            lemma_empty_consistent();
            assert(r@ =~= LedgerView::empty());
        }
        r
    }

    /// The configuration, once `initialize` has run.
    pub fn config(&self) -> (r: Option<&PushCommStorageV3>)
        ensures
            match r {
                Some(config) => self@.config == Some(config@),
                None => self@.config is None,
            },
    {
        self.config.as_ref()
    }

    /// The account of `user`; a blank one if none was created yet.
    pub fn user(&self, user: &Identity) -> (r: UserStorage)
        requires
            self@.consistent(),
        ensures
            r == self@.user(*user),
    {
        match self.users.get(&RecordKey::UserStorage { user: *user }) {
            Some(account) => *account,
            None => UserStorage::default(),
        }
    }

    /// The membership of `user` in `channel`; a blank one if none exists.
    pub fn subscription(&self, user: &Identity, channel: &Identity) -> (r: Subscription)
        requires
            self@.consistent(),
        ensures
            r == self@.subscription(*user, *channel),
    {
        match self.subscriptions.get(&RecordKey::Subscription { user: *user, channel: *channel }) {
            Some(subscription) => *subscription,
            None => Subscription::default(),
        }
    }

    /// The permission of `delegate` for `channel`; a blank one if none
    /// exists.
    pub fn delegation(&self, channel: &Identity, delegate: &Identity) -> (r:
        DelegatedNotificationSenders)
        requires
            self@.consistent(),
        ensures
            r == self@.delegation(*channel, *delegate),
    {
        match self.delegates.get(&RecordKey::Delegate { channel: *channel, delegate: *delegate }) {
            Some(delegation) => *delegation,
            None => DelegatedNotificationSenders::default(),
        }
    }

    /// Whether `user` receives `channel`.
    pub fn is_subscribed(&self, user: &Identity, channel: &Identity) -> (r: bool)
        requires
            self@.consistent(),
        ensures
            r == self@.is_subscribed(*user, *channel),
    {
        self.subscription(user, channel).is_subscribed
    }

    /// The subscription counter of `user`.
    pub fn subscribe_count(&self, user: &Identity) -> (r: u64)
        requires
            self@.consistent(),
        ensures
            r == self@.subscribe_count(*user),
            r == self@.subscribed_channels(*user).len(),
    {
        self.user(user).user_subscribe_count
    }

    /// Whether `delegate` may send for `channel`.
    pub fn is_delegate(&self, channel: &Identity, delegate: &Identity) -> (r: bool)
        requires
            self@.consistent(),
        ensures
            r == self@.is_delegate(*channel, *delegate),
    {
        self.delegation(channel, delegate).is_delegate
    }

    /// The stored preference of `user` for `channel`, if any was written.
    pub fn notification_settings(&self, user: &Identity, channel: &Identity) -> (r: Option<String>)
        requires
            self@.consistent(),
        ensures
            match r {
                Some(text) => self@.notification_settings(*user, *channel) == Some(text@),
                None => self@.notification_settings(*user, *channel) is None,
            },
    {
        match self.settings.get(&RecordKey::UserNotifSettings { user: *user, channel: *channel }) {
            Some(record) => Some(record.notif_settings.clone()),
            None => None,
        }
    }

    /// Everything emitted so far.
    pub fn events(&self) -> (r: &EventLog)
        ensures
            r@ == self@.events,
    {
        &self.events
    }

    fn config_copy(&self) -> (r: Option<PushCommStorageV3>)
        ensures
            match r {
                Some(config) => self@.config == Some(config@),
                None => self@.config is None,
            },
    {
        match &self.config {
            Some(config) => Some(config.duplicate()),
            None => None,
        }
    }

    /// Creates the configuration of the deployment. `push_admin` becomes
    /// both the governance authority and the channel admin.
    ///
    /// Fails with `AlreadyInitialized` if the configuration exists.
    pub fn initialize(&mut self, signer: Identity, push_admin: Identity, chain_cluster: String) -> (r:
        Result<(), LedgerError>)
        requires
            old(self)@.consistent(),
        ensures
            final(self)@.consistent(),
            ledger_outcome(
                old(self)@.initialize(push_admin, chain_cluster@),
                old(self)@,
                r,
                final(self)@,
            ),
    {
        if self.config.is_some() {
            return Err(LedgerError::AlreadyInitialized);
        }
        let mut ctx = InitializeCTX { storage: PushCommStorageV3::default(), signer };
        let r = crate::admin::initialize(&mut ctx, push_admin, chain_cluster);
        self.config = Some(ctx.storage);
        proof {
            lemma_consistent_by_records(old(self)@, self@);
        }
        program_result(r)
    }

    fn finish_admin(&mut self, ctx: AdminStorageUpdateCTX, r: Result<(), PushCommError>) -> (out:
        Result<(), LedgerError>)
        requires
            old(self)@.consistent(),
            r is Ok ==> old(self)@.config is Some && ctx.storage@.user_count == old(self)@.user_count(),
        ensures
            final(self)@.consistent(),
            match r {
                Ok(()) => out is Ok && final(self)@ == (LedgerView {
                    config: Some(ctx.storage@),
                    ..old(self)@
                }),
                Err(e) => out == Err::<(), LedgerError>(LedgerError::Program(e)) && final(self)@
                    == old(self)@,
            },
    {
        match r {
            Ok(()) => {
                self.config = Some(ctx.storage);
                proof {
                    lemma_consistent_by_records(old(self)@, self@);
                }
                Ok(())
            },
            Err(e) => Err(LedgerError::Program(e)),
        }
    }

    /// Replaces the governance authority; see
    /// [`set_governance_address`](crate::admin::set_governance_address).
    pub fn set_governance_address(&mut self, signer: Identity, governance: Identity) -> (r: Result<
        (),
        LedgerError,
    >)
        requires
            old(self)@.consistent(),
        ensures
            final(self)@.consistent(),
            ledger_outcome(
                old(self)@.set_governance_address(signer, governance),
                old(self)@,
                r,
                final(self)@,
            ),
    {
        match self.config_copy() {
            None => Err(LedgerError::NotInitialized),
            Some(storage) => {
                let mut ctx = AdminStorageUpdateCTX { storage, signer };
                let r = crate::admin::set_governance_address(&mut ctx, governance);
                self.finish_admin(ctx, r)
            },
        }
    }

    /// Replaces the address of the linked core module; see
    /// [`set_core_address`](crate::admin::set_core_address).
    pub fn set_core_address(&mut self, signer: Identity, core_address: Identity) -> (r: Result<
        (),
        LedgerError,
    >)
        requires
            old(self)@.consistent(),
        ensures
            final(self)@.consistent(),
            ledger_outcome(
                old(self)@.set_core_address(signer, core_address),
                old(self)@,
                r,
                final(self)@,
            ),
    {
        match self.config_copy() {
            None => Err(LedgerError::NotInitialized),
            Some(storage) => {
                let mut ctx = AdminStorageUpdateCTX { storage, signer };
                let r = crate::admin::set_core_address(&mut ctx, core_address);
                self.finish_admin(ctx, r)
            },
        }
    }

    /// Replaces the address of the linked token module; see
    /// [`set_push_token_address`](crate::admin::set_push_token_address).
    pub fn set_push_token_address(&mut self, signer: Identity, token_address: Identity) -> (r:
        Result<(), LedgerError>)
        requires
            old(self)@.consistent(),
        ensures
            final(self)@.consistent(),
            ledger_outcome(
                old(self)@.set_push_token_address(signer, token_address),
                old(self)@,
                r,
                final(self)@,
            ),
    {
        match self.config_copy() {
            None => Err(LedgerError::NotInitialized),
            Some(storage) => {
                let mut ctx = AdminStorageUpdateCTX { storage, signer };
                let r = crate::admin::set_push_token_address(&mut ctx, token_address);
                self.finish_admin(ctx, r)
            },
        }
    }

    /// Replaces the chain-cluster tag; see
    /// [`set_chain_cluster`](crate::admin::set_chain_cluster).
    pub fn set_chain_cluster(&mut self, signer: Identity, chain_cluster: String) -> (r: Result<
        (),
        LedgerError,
    >)
        requires
            old(self)@.consistent(),
        ensures
            final(self)@.consistent(),
            ledger_outcome(
                old(self)@.set_chain_cluster(signer, chain_cluster@),
                old(self)@,
                r,
                final(self)@,
            ),
    {
        match self.config_copy() {
            None => Err(LedgerError::NotInitialized),
            Some(storage) => {
                let mut ctx = AdminStorageUpdateCTX { storage, signer };
                let r = crate::admin::set_chain_cluster(&mut ctx, chain_cluster);
                self.finish_admin(ctx, r)
            },
        }
    }

    /// Pauses the deployment; see
    /// [`pause_contract`](crate::admin::pause_contract).
    pub fn pause_contract(&mut self, signer: Identity) -> (r: Result<(), LedgerError>)
        requires
            old(self)@.consistent(),
        ensures
            final(self)@.consistent(),
            ledger_outcome(old(self)@.pause_contract(signer), old(self)@, r, final(self)@),
    {
        match self.config_copy() {
            None => Err(LedgerError::NotInitialized),
            Some(storage) => {
                let mut ctx = AdminStorageUpdateCTX { storage, signer };
                let r = crate::admin::pause_contract(&mut ctx);
                self.finish_admin(ctx, r)
            },
        }
    }

    /// Resumes the deployment; see
    /// [`unpause_contract`](crate::admin::unpause_contract).
    pub fn unpause_contract(&mut self, signer: Identity) -> (r: Result<(), LedgerError>)
        requires
            old(self)@.consistent(),
        ensures
            final(self)@.consistent(),
            ledger_outcome(old(self)@.unpause_contract(signer), old(self)@, r, final(self)@),
    {
        match self.config_copy() {
            None => Err(LedgerError::NotInitialized),
            Some(storage) => {
                let mut ctx = AdminStorageUpdateCTX { storage, signer };
                let r = crate::admin::unpause_contract(&mut ctx);
                self.finish_admin(ctx, r)
            },
        }
    }

    /// Hands the channel-admin role to `new_owner`; see
    /// [`transfer_admin_ownership`](crate::admin::transfer_admin_ownership).
    pub fn transfer_admin_ownership(&mut self, signer: Identity, new_owner: Identity) -> (r: Result<
        (),
        LedgerError,
    >)
        requires
            old(self)@.consistent(),
        ensures
            final(self)@.consistent(),
            ledger_outcome(
                old(self)@.transfer_admin_ownership(signer, new_owner),
                old(self)@,
                r,
                final(self)@,
            ),
    {
        match self.config_copy() {
            None => Err(LedgerError::NotInitialized),
            Some(storage) => {
                let mut ctx = AdminStorageUpdateCTX { storage, signer };
                let r = crate::admin::transfer_admin_ownership(&mut ctx, new_owner);
                self.finish_admin(ctx, r)
            },
        }
    }

    /// Announces the address that the signer's channel uses on a foreign
    /// chain; see [`verify_channel_alias`](crate::dispatcher::verify_channel_alias).
    pub fn verify_channel_alias(&mut self, signer: Identity, channel_address: String) -> (r: Result<
        (),
        LedgerError,
    >)
        requires
            old(self)@.consistent(),
        ensures
            final(self)@.consistent(),
            ledger_outcome(
                old(self)@.verify_channel_alias(signer, channel_address@),
                old(self)@,
                r,
                final(self)@,
            ),
    {
        match self.config_copy() {
            None => Err(LedgerError::NotInitialized),
            Some(storage) => {
                let ctx = AliasVerificationCTX { storage, signer };
                let r = crate::dispatcher::verify_channel_alias(
                    &ctx,
                    channel_address,
                    &mut self.events,
                );
                proof {
                    lemma_consistent_by_records(old(self)@, self@);
                }
                program_result(r)
            },
        }
    }

    /// Subscribes `signer` to `channel` at ledger time `slot`; see
    /// [`subscribe`](crate::subscription::subscribe).
    ///
    /// The signer's account and the membership are created if they do not
    /// exist yet.
    pub fn subscribe(&mut self, signer: Identity, channel: Identity, slot: u64) -> (r: Result<
        (),
        LedgerError,
    >)
        requires
            old(self)@.consistent(),
        ensures
            final(self)@.consistent(),
            ledger_outcome(
                old(self)@.subscribe(signer, channel, slot),
                old(self)@,
                r,
                final(self)@,
            ),
    {
        match self.config_copy() {
            None => Err(LedgerError::NotInitialized),
            Some(comm_storage) => {
                let mut ctx = SubscribeCTX {
                    storage: self.user(&signer),
                    subscription: self.subscription(&signer, &channel),
                    comm_storage,
                    signer,
                };
                match crate::subscription::subscribe(&mut ctx, channel, slot, &mut self.events) {
                    Err(e) => Err(LedgerError::Program(e)),
                    Ok(()) => {
                        self.config = Some(ctx.comm_storage);
                        self.users.insert(RecordKey::UserStorage { user: signer }, ctx.storage);
                        self.subscriptions.insert(
                            RecordKey::Subscription { user: signer, channel },
                            ctx.subscription,
                        );
                        proof {
                            lemma_subscribe_consistent(old(self)@, signer, channel, slot);
                        }
                        Ok(())
                    },
                }
            },
        }
    }

    /// Unsubscribes `signer` from `channel` and reclaims the membership;
    /// see [`unsubscribe`](crate::subscription::unsubscribe).
    ///
    /// Never fails in an initialized deployment.
    pub fn unsubscribe(&mut self, signer: Identity, channel: Identity) -> (r: Result<
        (),
        LedgerError,
    >)
        requires
            old(self)@.consistent(),
        ensures
            final(self)@.consistent(),
            ledger_outcome(old(self)@.unsubscribe(signer, channel), old(self)@, r, final(self)@),
            old(self)@.config is Some ==> r is Ok,
    {
        match self.config_copy() {
            None => Err(LedgerError::NotInitialized),
            Some(comm_storage) => {
                let mut ctx = UnsubscribeCTX {
                    storage: self.user(&signer),
                    subscription: self.subscription(&signer, &channel),
                    comm_storage,
                    signer,
                };
                if !ctx.subscription.is_subscribed {
                    return Ok(());
                }
                proof {
                    lemma_unsubscribe_never_underflows(old(self)@, signer, channel);
                }
                match crate::subscription::unsubscribe(&mut ctx, channel, &mut self.events) {
                    Err(e) => Err(LedgerError::Program(e)),
                    Ok(()) => {
                        self.users.insert(RecordKey::UserStorage { user: signer }, ctx.storage);
                        self.subscriptions.remove(
                            &RecordKey::Subscription { user: signer, channel },
                        );
                        proof {
                            lemma_unsubscribe_consistent(old(self)@, signer, channel);
                        }
                        Ok(())
                    },
                }
            },
        }
    }

    /// Stores the preference of `signer` for `channel`; see
    /// [`set_user_notification_settings`](crate::preference::set_user_notification_settings).
    pub fn set_user_notification_settings(
        &mut self,
        signer: Identity,
        channel: Identity,
        notif_id: u64,
        notif_settings: String,
    ) -> (r: Result<(), LedgerError>)
        requires
            old(self)@.consistent(),
        ensures
            final(self)@.consistent(),
            ledger_outcome(
                old(self)@.set_user_notification_settings(
                    signer,
                    channel,
                    notif_id,
                    notif_settings@,
                ),
                old(self)@,
                r,
                final(self)@,
            ),
    {
        let key = RecordKey::UserNotifSettings { user: signer, channel };
        let storage = match self.settings.get(&key) {
            Some(record) => record.duplicate(),
            None => UserNotificationSettings::default(),
        };
        let mut ctx = UserChannelSettingsCTX {
            storage,
            subscription: self.subscription(&signer, &channel),
            signer,
        };
        match crate::preference::set_user_notification_settings(
            &mut ctx,
            channel,
            notif_id,
            notif_settings,
            &mut self.events,
        ) {
            Err(e) => Err(LedgerError::Program(e)),
            Ok(()) => {
                self.settings.insert(key, ctx.storage);
                proof {
                    lemma_consistent_by_records(old(self)@, self@);
                }
                Ok(())
            },
        }
    }

    /// Allows `delegate` to send for the signer's channel; see
    /// [`add_delegate`](crate::delegate::add_delegate). Always succeeds.
    pub fn add_delegate(&mut self, signer: Identity, delegate: Identity) -> (r: Result<
        (),
        LedgerError,
    >)
        requires
            old(self)@.consistent(),
        ensures
            final(self)@.consistent(),
            r is Ok,
            final(self)@ == old(self)@.add_delegate(signer, delegate),
    {
        let mut ctx = AddDelegateNotifSenders {
            storage: self.delegation(&signer, &delegate),
            signer,
        };
        if ctx.storage.is_delegate {
            return Ok(());
        }
        let r = crate::delegate::add_delegate(&mut ctx, delegate, &mut self.events);
        self.delegates.insert(RecordKey::Delegate { channel: signer, delegate }, ctx.storage);
        proof {
            lemma_delegate_consistent(old(self)@, signer, delegate);
            assert(self@ =~= old(self)@.add_delegate(signer, delegate));
        }
        program_result(r)
    }

    /// Withdraws the permission of `delegate` to send for the signer's
    /// channel and reclaims the permission record; see
    /// [`remove_delegate`](crate::delegate::remove_delegate). Always succeeds.
    pub fn remove_delegate(&mut self, signer: Identity, delegate: Identity) -> (r: Result<
        (),
        LedgerError,
    >)
        requires
            old(self)@.consistent(),
        ensures
            final(self)@.consistent(),
            r is Ok,
            final(self)@ == old(self)@.remove_delegate(signer, delegate),
    {
        let mut ctx = RemoveDelegateNotifSenders {
            storage: self.delegation(&signer, &delegate),
            signer,
        };
        if !ctx.storage.is_delegate {
            return Ok(());
        }
        let r = crate::delegate::remove_delegate(&mut ctx, delegate, &mut self.events);
        self.delegates.remove(&RecordKey::Delegate { channel: signer, delegate });
        proof {
            lemma_delegate_consistent(old(self)@, signer, delegate);
            assert(self@ =~= old(self)@.remove_delegate(signer, delegate));
        }
        program_result(r)
    }

    /// Sends `message` from `channel` to `recipient`; see
    /// [`send_notification`](crate::dispatcher::send_notification). No
    /// record is created or changed.
    pub fn send_notification(
        &mut self,
        signer: Identity,
        channel: Identity,
        recipient: Identity,
        message: Vec<u8>,
    ) -> (r: Result<(), LedgerError>)
        requires
            old(self)@.consistent(),
        ensures
            final(self)@.consistent(),
            ledger_outcome(
                old(self)@.send_notification(signer, channel, recipient, message@),
                old(self)@,
                r,
                final(self)@,
            ),
    {
        let ctx = SendNotificationCTX {
            delegate_storage: self.delegation(&channel, &signer),
            signer,
        };
        let r = crate::dispatcher::send_notification(
            &ctx,
            channel,
            recipient,
            message,
            &mut self.events,
        );
        proof {
            lemma_consistent_by_records(old(self)@, self@);
        }
        program_result(r)
    }
}

} // verus!
