//! What holds of every deployment, proved over the model.

use vstd::prelude::*;
use crate::errors::{LedgerError, PushCommError};
use crate::events::EventView;
use crate::guard::is_channel_admin;
use crate::identity::Identity;
use crate::model::LedgerView;
use crate::text::notif_settings_text;

verus! {

/// The empty deployment is consistent.
pub proof fn lemma_empty_consistent()
    ensures
        LedgerView::empty().consistent(),
{
    let s = LedgerView::empty();
    assert forall|user: Identity| #![trigger s.subscribed_channels(user)]
        s.subscribed_channels(user).finite() && s.subscribed_channels(user).len()
            == s.subscribe_count(user) by {
        assert(s.subscribed_channels(user) =~= Set::<Identity>::empty());
    }
    assert(s.activated_users() =~= Set::<Identity>::empty());
}

/// Consistency speaks of accounts, memberships, permissions and the user
/// counter only: a state that agrees on them with a consistent state is
/// consistent.
pub proof fn lemma_consistent_by_records(s: LedgerView, t: LedgerView)
    requires
        s.consistent(),
        t.users == s.users,
        t.subscriptions == s.subscriptions,
        t.delegates == s.delegates,
        t.user_count() == s.user_count(),
    ensures
        t.consistent(),
{
    assert(t.activated_users() =~= s.activated_users());
    assert forall|user: Identity| #![trigger t.subscribed_channels(user)]
        t.subscribed_channels(user).finite() && t.subscribed_channels(user).len()
            == t.subscribe_count(user) by {
        assert(t.subscribed_channels(user) =~= s.subscribed_channels(user));
    }
    assert forall|channel: Identity, delegate: Identity|
        #![trigger t.delegation(channel, delegate)]
        t.is_delegate(channel, delegate) implies t.delegation(channel, delegate).channel
        == channel && t.delegation(channel, delegate).delegate == delegate by {
        assert(t.delegation(channel, delegate) == s.delegation(channel, delegate));
    }
}

/// In a consistent deployment every user's counter is the number of
/// channels the user receives, and the deployment's user counter is the
/// number of activated users. Neither is ever negative.
pub proof fn lemma_counters_count(s: LedgerView, user: Identity)
    requires
        s.consistent(),
    ensures
        s.subscribe_count(user) == s.subscribed_channels(user).len(),
        s.subscribe_count(user) >= 0,
        s.user_count() == s.activated_users().len(),
        s.user_count() >= 0,
{
    assert(s.subscribed_channels(user).finite());
}

/// `subscribe` keeps a deployment consistent.
pub proof fn lemma_subscribe_consistent(s: LedgerView, signer: Identity, channel: Identity, slot: u64)
    requires
        s.consistent(),
    ensures
        s.subscribe(signer, channel, slot) matches Ok(t) ==> t.consistent(),
{
    if let Ok(t) = s.subscribe(signer, channel, slot) {
        assert forall|user: Identity| #![trigger t.subscribed_channels(user)]
            t.subscribed_channels(user).finite() && t.subscribed_channels(user).len()
                == t.subscribe_count(user) by {
            let before = s.subscribed_channels(user);
            assert(before.finite() && before.len() == s.subscribe_count(user));
            if user == signer {
                if s.is_subscribed(signer, channel) {
                    assert(t.subscribed_channels(user) =~= before);
                } else {
                    assert(t.subscribed_channels(user) =~= before.insert(channel));
                }
            } else {
                assert(t.subscribed_channels(user) =~= before);
            }
        }
        assert forall|c: Identity, d: Identity| #![trigger t.delegation(c, d)]
            t.is_delegate(c, d) implies t.delegation(c, d).channel == c && t.delegation(
            c,
            d,
        ).delegate == d by {
            assert(t.delegation(c, d) == s.delegation(c, d));
        }
        if s.user(signer).user_activated {
            assert(t.activated_users() =~= s.activated_users());
        } else {
            assert(t.activated_users() =~= s.activated_users().insert(signer));
        }
    }
}

/// `unsubscribe` keeps a deployment consistent.
pub proof fn lemma_unsubscribe_consistent(s: LedgerView, signer: Identity, channel: Identity)
    requires
        s.consistent(),
    ensures
        s.unsubscribe(signer, channel) matches Ok(t) ==> t.consistent(),
{
    if let Ok(t) = s.unsubscribe(signer, channel) {
        assert forall|user: Identity| #![trigger t.subscribed_channels(user)]
            t.subscribed_channels(user).finite() && t.subscribed_channels(user).len()
                == t.subscribe_count(user) by {
            let before = s.subscribed_channels(user);
            assert(before.finite() && before.len() == s.subscribe_count(user));
            if user == signer && s.is_subscribed(signer, channel) {
                assert(before.contains(channel));
                assert(t.subscribed_channels(user) =~= before.remove(channel));
            } else {
                assert(t.subscribed_channels(user) =~= before);
            }
        }
        assert forall|c: Identity, d: Identity| #![trigger t.delegation(c, d)]
            t.is_delegate(c, d) implies t.delegation(c, d).channel == c && t.delegation(
            c,
            d,
        ).delegate == d by {
            assert(t.delegation(c, d) == s.delegation(c, d));
        }
        assert(t.activated_users() =~= s.activated_users());
    }
}

/// `add_delegate` and `remove_delegate` keep a deployment consistent.
pub proof fn lemma_delegate_consistent(s: LedgerView, signer: Identity, delegate: Identity)
    requires
        s.consistent(),
    ensures
        s.add_delegate(signer, delegate).consistent(),
        s.remove_delegate(signer, delegate).consistent(),
{
    let added = s.add_delegate(signer, delegate);
    let removed = s.remove_delegate(signer, delegate);
    assert(added.activated_users() =~= s.activated_users());
    assert(removed.activated_users() =~= s.activated_users());
    assert forall|user: Identity| #![trigger added.subscribed_channels(user)]
        added.subscribed_channels(user).finite() && added.subscribed_channels(user).len()
            == added.subscribe_count(user) by {
        assert(added.subscribed_channels(user) =~= s.subscribed_channels(user));
    }
    assert forall|user: Identity| #![trigger removed.subscribed_channels(user)]
        removed.subscribed_channels(user).finite() && removed.subscribed_channels(user).len()
            == removed.subscribe_count(user) by {
        assert(removed.subscribed_channels(user) =~= s.subscribed_channels(user));
    }
    assert forall|c: Identity, d: Identity| #![trigger added.delegation(c, d)]
        added.is_delegate(c, d) implies added.delegation(c, d).channel == c && added.delegation(
        c,
        d,
    ).delegate == d by {
        if !(c == signer && d == delegate) {
            assert(added.delegation(c, d) == s.delegation(c, d));
        }
    }
    assert forall|c: Identity, d: Identity| #![trigger removed.delegation(c, d)]
        removed.is_delegate(c, d) implies removed.delegation(c, d).channel == c
        && removed.delegation(c, d).delegate == d by {
        if !(c == signer && d == delegate) {
            assert(removed.delegation(c, d) == s.delegation(c, d));
        }
    }
}

/// The state after an operation: the next state where it succeeded, the
/// state as it was where it failed.
pub open spec fn state_after(outcome: Result<LedgerView, LedgerError>, before: LedgerView) -> LedgerView {
    match outcome {
        Ok(next) => next,
        Err(_) => before,
    }
}

/// Subscribing to a channel that the user does not receive, then
/// unsubscribing from it, restores the user's counter and the membership.
pub proof fn lemma_subscribe_unsubscribe_round_trip(
    s: LedgerView,
    user: Identity,
    channel: Identity,
    slot: u64,
)
    requires
        !s.is_subscribed(user, channel),
    ensures
        ({
            let subscribed = state_after(s.subscribe(user, channel, slot), s);
            let restored = state_after(subscribed.unsubscribe(user, channel), subscribed);
            &&& restored.subscribe_count(user) == s.subscribe_count(user)
            &&& restored.is_subscribed(user, channel) == s.is_subscribed(user, channel)
            &&& s.subscribe(user, channel, slot) is Ok ==> subscribed.unsubscribe(user, channel)
                is Ok
        }),
{
}

/// Subscribing a second time changes nothing: two calls in a row leave the
/// state that one call leaves. Where the first call switches the membership
/// on, the counter has grown by exactly one after both.
pub proof fn lemma_subscribe_idempotent(s: LedgerView, user: Identity, channel: Identity, slot: u64)
    ensures
        ({
            let once = state_after(s.subscribe(user, channel, slot), s);
            let twice = state_after(once.subscribe(user, channel, slot), once);
            &&& twice == once
            &&& s.subscribe(user, channel, slot) is Ok ==> once.subscribe(user, channel, slot)
                is Ok
            &&& s.subscribe(user, channel, slot) is Ok && !s.is_subscribed(user, channel)
                ==> twice.subscribe_count(user) == s.subscribe_count(user) + 1
            &&& s.is_subscribed(user, channel) ==> twice.subscribe_count(user)
                == s.subscribe_count(user)
        }),
{
    let once = state_after(s.subscribe(user, channel, slot), s);
    let twice = state_after(once.subscribe(user, channel, slot), once);
    assert(twice =~= once);
}

/// Unsubscribing a second time changes nothing.
pub proof fn lemma_unsubscribe_idempotent(s: LedgerView, user: Identity, channel: Identity)
    ensures
        ({
            let once = state_after(s.unsubscribe(user, channel), s);
            let twice = state_after(once.unsubscribe(user, channel), once);
            twice == once
        }),
{
}

/// In a consistent deployment the counter of a subscribed user is positive,
/// so an initialized deployment never refuses to unsubscribe.
pub proof fn lemma_unsubscribe_never_underflows(s: LedgerView, user: Identity, channel: Identity)
    requires
        s.consistent(),
        s.config is Some,
    ensures
        s.unsubscribe(user, channel) is Ok,
        s.is_subscribed(user, channel) ==> s.subscribe_count(user) > 0,
{
    if s.is_subscribed(user, channel) {
        assert(s.subscribed_channels(user).contains(channel));
    }
}

/// For the channel admin, pausing twice in a row ends in `AlreadyPaused`,
/// and pausing after unpausing succeeds.
pub proof fn lemma_pause_gating(s: LedgerView, admin: Identity)
    requires
        s.config matches Some(config) && is_channel_admin(config, admin),
    ensures
        state_after(s.pause_contract(admin), s).pause_contract(admin) == Err::<
            LedgerView,
            LedgerError,
        >(LedgerError::Program(PushCommError::AlreadyPaused)),
        state_after(s.unpause_contract(admin), s).pause_contract(admin) is Ok,
        state_after(s.pause_contract(admin), s).unpause_contract(admin) is Ok,
        state_after(s.unpause_contract(admin), s).unpause_contract(admin) == Err::<
            LedgerView,
            LedgerError,
        >(LedgerError::Program(PushCommError::NotPaused)),
{
}

/// The governance field answers to the governance authority alone: anyone
/// else is refused, and the authority's own call installs the new value.
pub proof fn lemma_governance_authority(s: LedgerView, signer: Identity, governance: Identity)
    requires
        s.config is Some,
    ensures
        signer != s.config.unwrap().governance ==> s.set_governance_address(signer, governance)
            == Err::<LedgerView, LedgerError>(LedgerError::Program(PushCommError::Unauthorized)),
        signer == s.config.unwrap().governance ==> (s.set_governance_address(signer, governance)
            matches Ok(t) && t.config.unwrap().governance == governance),
{
}

/// A delegate's send emits exactly one notification, with the channel, the
/// recipient and the message it was given, and so does the channel's own.
/// A send by an identity that is neither the channel nor a delegate of it is
/// refused and emits nothing. No record changes.
pub proof fn lemma_delegated_send(
    s: LedgerView,
    signer: Identity,
    channel: Identity,
    recipient: Identity,
    message: Seq<u8>,
)
    ensures
        s.is_delegate(channel, signer) || signer == channel ==> s.send_notification(
            signer,
            channel,
            recipient,
            message,
        ) == Ok::<LedgerView, LedgerError>(
            LedgerView {
                events: s.events.push(EventView::SendNotification { channel, recipient, message }),
                ..s
            },
        ),
        signer != channel && !s.is_delegate(channel, signer) ==> s.send_notification(
            signer,
            channel,
            recipient,
            message,
        ) == Err::<LedgerView, LedgerError>(LedgerError::Program(PushCommError::Unauthorized)),
        s.add_delegate(channel, signer).is_delegate(channel, signer),
        !s.remove_delegate(channel, signer).is_delegate(channel, signer),
{
}

/// Initializing and every administrative change keep a deployment
/// consistent, and so do announcing an alias, storing a preference and
/// sending a notification.
pub proof fn lemma_other_operations_consistent(
    s: LedgerView,
    signer: Identity,
    other: Identity,
    text: Seq<char>,
    number: u64,
    message: Seq<u8>,
)
    requires
        s.consistent(),
    ensures
        s.initialize(other, text) matches Ok(t) ==> t.consistent(),
        s.set_governance_address(signer, other) matches Ok(t) ==> t.consistent(),
        s.set_core_address(signer, other) matches Ok(t) ==> t.consistent(),
        s.set_push_token_address(signer, other) matches Ok(t) ==> t.consistent(),
        s.set_chain_cluster(signer, text) matches Ok(t) ==> t.consistent(),
        s.pause_contract(signer) matches Ok(t) ==> t.consistent(),
        s.unpause_contract(signer) matches Ok(t) ==> t.consistent(),
        s.transfer_admin_ownership(signer, other) matches Ok(t) ==> t.consistent(),
        s.verify_channel_alias(signer, text) matches Ok(t) ==> t.consistent(),
        s.set_user_notification_settings(signer, other, number, text) matches Ok(t)
            ==> t.consistent(),
        s.send_notification(signer, other, other, message) matches Ok(t) ==> t.consistent(),
{
    if let Ok(t) = s.initialize(other, text) {
        lemma_consistent_by_records(s, t);
    }
    if let Ok(t) = s.set_governance_address(signer, other) {
        lemma_consistent_by_records(s, t);
    }
    if let Ok(t) = s.set_core_address(signer, other) {
        lemma_consistent_by_records(s, t);
    }
    if let Ok(t) = s.set_push_token_address(signer, other) {
        lemma_consistent_by_records(s, t);
    }
    if let Ok(t) = s.set_chain_cluster(signer, text) {
        lemma_consistent_by_records(s, t);
    }
    if let Ok(t) = s.pause_contract(signer) {
        lemma_consistent_by_records(s, t);
    }
    if let Ok(t) = s.unpause_contract(signer) {
        lemma_consistent_by_records(s, t);
    }
    if let Ok(t) = s.transfer_admin_ownership(signer, other) {
        lemma_consistent_by_records(s, t);
    }
    if let Ok(t) = s.verify_channel_alias(signer, text) {
        lemma_consistent_by_records(s, t);
    }
    if let Ok(t) = s.set_user_notification_settings(signer, other, number, text) {
        lemma_consistent_by_records(s, t);
    }
    if let Ok(t) = s.send_notification(signer, other, other, message) {
        lemma_consistent_by_records(s, t);
    }
}

/// The user counter of a deployment never decreases: a subscription by a
/// new user raises it by one, and nothing else changes it. An activated
/// account stays activated, with the ledger time of its activation.
pub proof fn lemma_activation_one_way(
    s: LedgerView,
    signer: Identity,
    channel: Identity,
    slot: u64,
    user: Identity,
)
    ensures
        s.subscribe(signer, channel, slot) matches Ok(t) ==> t.user(signer).user_activated
            && t.user_count() == s.user_count() + (if s.user(signer).user_activated {
            0int
        } else {
            1int
        }) && (s.user(user).user_activated ==> t.user(user).user_activated && t.user(
            user,
        ).user_start_block == s.user(user).user_start_block),
        s.unsubscribe(signer, channel) matches Ok(t) ==> t.user_count() == s.user_count() && (
        s.user(user).user_activated ==> t.user(user).user_activated && t.user(
            user,
        ).user_start_block == s.user(user).user_start_block),
{
}

/// No administrative change, alias, preference, delegate change or send
/// touches the user counter.
pub proof fn lemma_user_count_kept(
    s: LedgerView,
    signer: Identity,
    other: Identity,
    text: Seq<char>,
    number: u64,
    message: Seq<u8>,
)
    ensures
        s.set_governance_address(signer, other) matches Ok(t) ==> t.user_count()
            == s.user_count(),
        s.set_core_address(signer, other) matches Ok(t) ==> t.user_count() == s.user_count(),
        s.set_push_token_address(signer, other) matches Ok(t) ==> t.user_count()
            == s.user_count(),
        s.set_chain_cluster(signer, text) matches Ok(t) ==> t.user_count() == s.user_count(),
        s.pause_contract(signer) matches Ok(t) ==> t.user_count() == s.user_count(),
        s.unpause_contract(signer) matches Ok(t) ==> t.user_count() == s.user_count(),
        s.transfer_admin_ownership(signer, other) matches Ok(t) ==> t.user_count()
            == s.user_count(),
        s.verify_channel_alias(signer, text) matches Ok(t) ==> t.user_count() == s.user_count(),
        s.set_user_notification_settings(signer, other, number, text) matches Ok(t)
            ==> t.user_count() == s.user_count(),
        s.add_delegate(signer, other).user_count() == s.user_count(),
        s.remove_delegate(signer, other).user_count() == s.user_count(),
        s.send_notification(signer, other, other, message) matches Ok(t) ==> t.user_count()
            == s.user_count(),
{
}

/// A preference slot holds what was written to it last, and a write to one
/// slot leaves every other slot as it was.
pub proof fn lemma_settings_last_write_wins(
    s: LedgerView,
    user: Identity,
    channel: Identity,
    notif_id: u64,
    notif_settings: Seq<char>,
    other_user: Identity,
    other_channel: Identity,
)
    ensures
        s.set_user_notification_settings(user, channel, notif_id, notif_settings) matches Ok(t)
            ==> t.notification_settings(user, channel) == Some(
            notif_settings_text(notif_id, notif_settings),
        ) && (other_user != user || other_channel != channel ==> t.notification_settings(
            other_user,
            other_channel,
        ) == s.notification_settings(other_user, other_channel)),
{
}

} // verus!
