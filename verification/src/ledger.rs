//! A deployment held in memory, with every operation applied as one atomic
//! step.
//!
//! The deployment is consistent at all times: whatever is done through this
//! interface, every user's counter equals the number of channels the user
//! receives, the user counter equals the number of activated users, and an
//! active permission names the pair it is stored under.

use vstd::prelude::*;
use crate::errors::LedgerError;
use crate::events::EventLog;
use crate::identity::Identity;
use crate::lemmas::lemma_empty_consistent;
use crate::model::{ledger_outcome, LedgerView};
use crate::records::Records;
use crate::state::{DelegatedNotificationSenders, PushCommStorageV3, Subscription, UserStorage};

verus! {

/// A deployment.
pub struct Ledger {
    records: Records,
}

impl View for Ledger {
    type V = LedgerView;

    closed spec fn view(&self) -> LedgerView {
        self.records@
    }
}

impl Ledger {
    /// The state is consistent.
    #[verifier::type_invariant]
    spec fn wf(&self) -> bool {
        self.records@.consistent()
    }

    fn take(&mut self) -> (records: Records)
        ensures
            records@ == old(self)@,
            records@.consistent(),
    {
        proof {
            use_type_invariant(&*self);
            lemma_empty_consistent();
        }
        let mut records = Records::new();
        core::mem::swap(&mut records, &mut self.records);
        records
    }

    fn put(&mut self, records: Records)
        requires
            records@.consistent(),
        ensures
            final(self)@ == records@,
    {
        self.records = records;
    }

    /// A deployment before anything has happened.
    pub fn new() -> (r: Self)
        ensures
            r@.consistent(),
            r@ == LedgerView::empty(),
    {
        proof {
            lemma_empty_consistent();
        }
        Ledger { records: Records::new() }
    }

    /// The configuration, once `initialize` has run.
    pub fn config(&self) -> (r: Option<&PushCommStorageV3>)
        ensures
            match r {
                Some(config) => self@.config == Some(config@),
                None => self@.config is None,
            },
    {
        proof {
            use_type_invariant(self);
        }
        self.records.config()
    }

    /// The account of `user`; a blank one if none was created yet.
    pub fn user(&self, user: &Identity) -> (r: UserStorage)
        ensures
            r == self@.user(*user),
    {
        proof {
            use_type_invariant(self);
        }
        self.records.user(user)
    }

    /// The membership of `user` in `channel`; a blank one if none exists.
    pub fn subscription(&self, user: &Identity, channel: &Identity) -> (r: Subscription)
        ensures
            r == self@.subscription(*user, *channel),
    {
        proof {
            use_type_invariant(self);
        }
        self.records.subscription(user, channel)
    }

    /// The permission of `delegate` for `channel`; a blank one if none
    /// exists.
    pub fn delegation(&self, channel: &Identity, delegate: &Identity) -> (r:
        DelegatedNotificationSenders)
        ensures
            r == self@.delegation(*channel, *delegate),
    {
        proof {
            use_type_invariant(self);
        }
        self.records.delegation(channel, delegate)
    }

    /// Whether `user` receives `channel`.
    pub fn is_subscribed(&self, user: &Identity, channel: &Identity) -> (r: bool)
        ensures
            r == self@.is_subscribed(*user, *channel),
    {
        proof {
            use_type_invariant(self);
        }
        self.records.is_subscribed(user, channel)
    }

    /// The subscription counter of `user`.
    pub fn subscribe_count(&self, user: &Identity) -> (r: u64)
        ensures
            r == self@.subscribe_count(*user),
            r == self@.subscribed_channels(*user).len(),
    {
        proof {
            use_type_invariant(self);
        }
        self.records.subscribe_count(user)
    }

    /// Whether `delegate` may send for `channel`.
    pub fn is_delegate(&self, channel: &Identity, delegate: &Identity) -> (r: bool)
        ensures
            r == self@.is_delegate(*channel, *delegate),
    {
        proof {
            use_type_invariant(self);
        }
        self.records.is_delegate(channel, delegate)
    }

    /// The stored preference of `user` for `channel`, if any was written.
    pub fn notification_settings(&self, user: &Identity, channel: &Identity) -> (r: Option<String>)
        ensures
            match r {
                Some(text) => self@.notification_settings(*user, *channel) == Some(text@),
                None => self@.notification_settings(*user, *channel) is None,
            },
    {
        proof {
            use_type_invariant(self);
        }
        self.records.notification_settings(user, channel)
    }

    /// Everything emitted so far.
    pub fn events(&self) -> (r: &EventLog)
        ensures
            r@ == self@.events,
    {
        proof {
            use_type_invariant(self);
        }
        self.records.events()
    }

    /// Creates the configuration of the deployment. `push_admin` becomes
    /// both the governance authority and the channel admin.
    ///
    /// Fails with `AlreadyInitialized` if the configuration exists.
    pub fn initialize(&mut self, signer: Identity, push_admin: Identity, chain_cluster: String) -> (r:
        Result<(), LedgerError>)
        ensures
            final(self)@.consistent(),
            ledger_outcome(
                old(self)@.initialize(push_admin, chain_cluster@),
                old(self)@,
                r,
                final(self)@,
            ),
    {
        let mut records = self.take();
        let r = records.initialize(signer, push_admin, chain_cluster);
        self.put(records);
        r
    }

    /// Replaces the governance authority; see
    /// [`set_governance_address`](crate::admin::set_governance_address).
    pub fn set_governance_address(&mut self, signer: Identity, governance: Identity) -> (r: Result<
        (),
        LedgerError,
    >)
        ensures
            final(self)@.consistent(),
            ledger_outcome(
                old(self)@.set_governance_address(signer, governance),
                old(self)@,
                r,
                final(self)@,
            ),
    {
        let mut records = self.take();
        let r = records.set_governance_address(signer, governance);
        self.put(records);
        r
    }

    /// Replaces the address of the linked core module; see
    /// [`set_core_address`](crate::admin::set_core_address).
    pub fn set_core_address(&mut self, signer: Identity, core_address: Identity) -> (r: Result<
        (),
        LedgerError,
    >)
        ensures
            final(self)@.consistent(),
            ledger_outcome(
                old(self)@.set_core_address(signer, core_address),
                old(self)@,
                r,
                final(self)@,
            ),
    {
        let mut records = self.take();
        let r = records.set_core_address(signer, core_address);
        self.put(records);
        r
    }

    /// Replaces the address of the linked token module; see
    /// [`set_push_token_address`](crate::admin::set_push_token_address).
    pub fn set_push_token_address(&mut self, signer: Identity, token_address: Identity) -> (r:
        Result<(), LedgerError>)
        ensures
            final(self)@.consistent(),
            ledger_outcome(
                old(self)@.set_push_token_address(signer, token_address),
                old(self)@,
                r,
                final(self)@,
            ),
    {
        let mut records = self.take();
        let r = records.set_push_token_address(signer, token_address);
        self.put(records);
        r
    }

    /// Replaces the chain-cluster tag; see
    /// [`set_chain_cluster`](crate::admin::set_chain_cluster).
    pub fn set_chain_cluster(&mut self, signer: Identity, chain_cluster: String) -> (r: Result<
        (),
        LedgerError,
    >)
        ensures
            final(self)@.consistent(),
            ledger_outcome(
                old(self)@.set_chain_cluster(signer, chain_cluster@),
                old(self)@,
                r,
                final(self)@,
            ),
    {
        let mut records = self.take();
        let r = records.set_chain_cluster(signer, chain_cluster);
        self.put(records);
        r
    }

    /// Pauses the deployment; see
    /// [`pause_contract`](crate::admin::pause_contract).
    pub fn pause_contract(&mut self, signer: Identity) -> (r: Result<(), LedgerError>)
        ensures
            final(self)@.consistent(),
            ledger_outcome(old(self)@.pause_contract(signer), old(self)@, r, final(self)@),
    {
        let mut records = self.take();
        let r = records.pause_contract(signer);
        self.put(records);
        r
    }

    /// Resumes the deployment; see
    /// [`unpause_contract`](crate::admin::unpause_contract).
    pub fn unpause_contract(&mut self, signer: Identity) -> (r: Result<(), LedgerError>)
        ensures
            final(self)@.consistent(),
            ledger_outcome(old(self)@.unpause_contract(signer), old(self)@, r, final(self)@),
    {
        let mut records = self.take();
        let r = records.unpause_contract(signer);
        self.put(records);
        r
    }

    /// Hands the channel-admin role to `new_owner`; see
    /// [`transfer_admin_ownership`](crate::admin::transfer_admin_ownership).
    pub fn transfer_admin_ownership(&mut self, signer: Identity, new_owner: Identity) -> (r: Result<
        (),
        LedgerError,
    >)
        ensures
            final(self)@.consistent(),
            ledger_outcome(
                old(self)@.transfer_admin_ownership(signer, new_owner),
                old(self)@,
                r,
                final(self)@,
            ),
    {
        let mut records = self.take();
        let r = records.transfer_admin_ownership(signer, new_owner);
        self.put(records);
        r
    }

    /// Announces the address that the signer's channel uses on a foreign
    /// chain; see [`verify_channel_alias`](crate::dispatcher::verify_channel_alias).
    pub fn verify_channel_alias(&mut self, signer: Identity, channel_address: String) -> (r: Result<
        (),
        LedgerError,
    >)
        ensures
            final(self)@.consistent(),
            ledger_outcome(
                old(self)@.verify_channel_alias(signer, channel_address@),
                old(self)@,
                r,
                final(self)@,
            ),
    {
        let mut records = self.take();
        let r = records.verify_channel_alias(signer, channel_address);
        self.put(records);
        r
    }

    /// Subscribes `signer` to `channel` at ledger time `slot`; see
    /// [`subscribe`](crate::subscription::subscribe).
    ///
    /// The signer's account and the membership are created if they do not
    /// exist yet.
    pub fn subscribe(&mut self, signer: Identity, channel: Identity, slot: u64) -> (r: Result<
        (),
        LedgerError,
    >)
        ensures
            final(self)@.consistent(),
            ledger_outcome(
                old(self)@.subscribe(signer, channel, slot),
                old(self)@,
                r,
                final(self)@,
            ),
    {
        let mut records = self.take();
        let r = records.subscribe(signer, channel, slot);
        self.put(records);
        r
    }

    /// Unsubscribes `signer` from `channel` and reclaims the membership;
    /// see [`unsubscribe`](crate::subscription::unsubscribe).
    ///
    /// Never fails in an initialized deployment.
    pub fn unsubscribe(&mut self, signer: Identity, channel: Identity) -> (r: Result<
        (),
        LedgerError,
    >)
        ensures
            final(self)@.consistent(),
            ledger_outcome(old(self)@.unsubscribe(signer, channel), old(self)@, r, final(self)@),
            old(self)@.config is Some ==> r is Ok,
    {
        let mut records = self.take();
        let r = records.unsubscribe(signer, channel);
        self.put(records);
        r
    }

    /// Stores the preference of `signer` for `channel`; see
    /// [`set_user_notification_settings`](crate::preference::set_user_notification_settings).
    pub fn set_user_notification_settings(
        &mut self,
        signer: Identity,
        channel: Identity,
        notif_id: u64,
        notif_settings: String,
    ) -> (r: Result<(), LedgerError>)
        ensures
            final(self)@.consistent(),
            ledger_outcome(
                old(self)@.set_user_notification_settings(
                    signer,
                    channel,
                    notif_id,
                    notif_settings@,
                ),
                old(self)@,
                r,
                final(self)@,
            ),
    {
        let mut records = self.take();
        let r = records.set_user_notification_settings(signer, channel, notif_id, notif_settings);
        self.put(records);
        r
    }

    /// Allows `delegate` to send for the signer's channel; see
    /// [`add_delegate`](crate::delegate::add_delegate). Always succeeds.
    pub fn add_delegate(&mut self, signer: Identity, delegate: Identity) -> (r: Result<
        (),
        LedgerError,
    >)
        ensures
            final(self)@.consistent(),
            r is Ok,
            final(self)@ == old(self)@.add_delegate(signer, delegate),
    {
        let mut records = self.take();
        let r = records.add_delegate(signer, delegate);
        self.put(records);
        r
    }

    /// Withdraws the permission of `delegate` to send for the signer's
    /// channel and reclaims the permission record; see
    /// [`remove_delegate`](crate::delegate::remove_delegate). Always succeeds.
    pub fn remove_delegate(&mut self, signer: Identity, delegate: Identity) -> (r: Result<
        (),
        LedgerError,
    >)
        ensures
            final(self)@.consistent(),
            r is Ok,
            final(self)@ == old(self)@.remove_delegate(signer, delegate),
    {
        let mut records = self.take();
        let r = records.remove_delegate(signer, delegate);
        self.put(records);
        r
    }

    /// Sends `message` from `channel` to `recipient`; see
    /// [`send_notification`](crate::dispatcher::send_notification). No
    /// record is created or changed.
    pub fn send_notification(
        &mut self,
        signer: Identity,
        channel: Identity,
        recipient: Identity,
        message: Vec<u8>,
    ) -> (r: Result<(), LedgerError>)
        ensures
            final(self)@.consistent(),
            ledger_outcome(
                old(self)@.send_notification(signer, channel, recipient, message@),
                old(self)@,
                r,
                final(self)@,
            ),
    {
        let mut records = self.take();
        let r = records.send_notification(signer, channel, recipient, message);
        self.put(records);
        r
    }
}

} // verus!
