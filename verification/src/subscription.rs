//! User activation and the subscribe / unsubscribe state machine.
//!
//! A membership is either off (never created, or switched off) or on.
//! Switching it on or off a second time changes nothing. The user's counter
//! follows the number of memberships that are on.

use vstd::prelude::*;
use crate::context::{SubscribeCTX, UnsubscribeCTX};
use crate::errors::PushCommError;
use crate::events::{Event, EventLog, EventView, Subscribed, Unsubscribed};
use crate::identity::Identity;
use crate::state::{PushCommStorageV3, PushCommStorageV3View, Subscription, UserStorage};

verus! {

/// What activation does. An activated account is left alone; a new one is
/// marked, stamped with the ledger time, and counted, unless the deployment's
/// user counter is exhausted.
pub open spec fn spec_add_user(
    user: UserStorage,
    config: PushCommStorageV3View,
    slot: u64,
) -> Result<(UserStorage, PushCommStorageV3View), PushCommError> {
    if user.user_activated {
        Ok((user, config))
    } else if config.user_count == u64::MAX {
        Err(PushCommError::Overflow)
    } else {
        Ok(
            (
                UserStorage { user_activated: true, user_start_block: slot, ..user },
                PushCommStorageV3View { user_count: (config.user_count + 1) as u64, ..config },
            ),
        )
    }
}

/// What switching a membership on does to the account and the membership,
/// and what it emits.
pub open spec fn spec_subscribe_record(
    user: UserStorage,
    subscription: Subscription,
    signer: Identity,
    channel: Identity,
) -> Result<(UserStorage, Subscription, Seq<EventView>), PushCommError> {
    if subscription.is_subscribed {
        Ok((user, subscription, Seq::empty()))
    } else if user.user_subscribe_count == u64::MAX {
        Err(PushCommError::Overflow)
    } else {
        Ok(
            (
                UserStorage {
                    user_subscribe_count: (user.user_subscribe_count + 1) as u64,
                    ..user
                },
                Subscription { is_subscribed: true },
                seq![EventView::Subscribed { user: signer, channel }],
            ),
        )
    }
}

/// What switching a membership off does to the account and the membership,
/// and what it emits.
pub open spec fn spec_unsubscribe_record(
    user: UserStorage,
    subscription: Subscription,
    signer: Identity,
    channel: Identity,
) -> Result<(UserStorage, Subscription, Seq<EventView>), PushCommError> {
    if !subscription.is_subscribed {
        Ok((user, subscription, Seq::empty()))
    } else if user.user_subscribe_count == 0 {
        Err(PushCommError::Underflow)
    } else {
        Ok(
            (
                UserStorage {
                    user_subscribe_count: (user.user_subscribe_count - 1) as u64,
                    ..user
                },
                Subscription { is_subscribed: false },
                seq![EventView::Unsubscribed { user: signer, channel }],
            ),
        )
    }
}

/// Everything a successful `subscribe` leaves behind.
pub struct SubscribeOutcome {
    pub user: UserStorage,
    pub subscription: Subscription,
    pub config: PushCommStorageV3View,
    pub emitted: Seq<EventView>,
}

/// What `subscribe` does: activation first, then the membership. A failure
/// in either step fails the whole operation.
pub open spec fn spec_subscribe(
    user: UserStorage,
    subscription: Subscription,
    config: PushCommStorageV3View,
    signer: Identity,
    channel: Identity,
    slot: u64,
) -> Result<SubscribeOutcome, PushCommError> {
    match spec_add_user(user, config, slot) {
        Err(e) => Err(e),
        Ok((activated, counted)) => match spec_subscribe_record(
            activated,
            subscription,
            signer,
            channel,
        ) {
            Err(e) => Err(e),
            Ok((user, subscription, emitted)) => Ok(
                SubscribeOutcome { user, subscription, config: counted, emitted },
            ),
        },
    }
}

/// Activates the account on its first use and counts the new user.
///
/// Fails with `Overflow`, changing nothing, if the user counter is at its
/// maximum. An already activated account is left as it is.
fn _add_user(user_storage: &mut UserStorage, comm_storage: &mut PushCommStorageV3, slot: u64) -> (r:
    Result<(), PushCommError>)
    ensures
        match spec_add_user(*old(user_storage), old(comm_storage)@, slot) {
            Ok((user, config)) => r is Ok && *final(user_storage) == user && final(comm_storage)@ == config,
            Err(e) => r == Err::<(), PushCommError>(e) && *final(user_storage) == *old(user_storage) && final(comm_storage)@ == old(comm_storage)@,
        },
{
    if !user_storage.user_activated {
        match comm_storage.user_count.checked_add(1) {
            None => {
                return Err(PushCommError::Overflow);
            },
            Some(count) => {
                user_storage.user_activated = true;
                user_storage.user_start_block = slot;
                comm_storage.user_count = count;
            },
        }
    }
    Ok(())
}

/// Switches the (user, channel) membership on, counts it, and reports it.
///
/// Does nothing if the membership is already on. Fails with `Overflow`,
/// changing nothing, if the user's counter is at its maximum.
fn _subscribe(
    user_storage: &mut UserStorage,
    subscription_storage: &mut Subscription,
    user: Identity,
    channel: Identity,
    events: &mut EventLog,
) -> (r: Result<(), PushCommError>)
    ensures
        match spec_subscribe_record(*old(user_storage), *old(subscription_storage), user, channel) {
            Ok((account, subscription, emitted)) => r is Ok && *final(user_storage) == account
                && *final(subscription_storage) == subscription && final(events)@ == old(events)@ + emitted,
            Err(e) => r == Err::<(), PushCommError>(e) && *final(user_storage) == *old(user_storage) && *final(subscription_storage) == *old(subscription_storage) && final(events)@
                == old(events)@,
        },
{
    if !subscription_storage.is_subscribed {
        match user_storage.user_subscribe_count.checked_add(1) {
            None => {
                return Err(PushCommError::Overflow);
            },
            Some(count) => {
                user_storage.user_subscribe_count = count;
                subscription_storage.is_subscribed = true;
                events.emit(Event::Subscribed(Subscribed { user, channel }));
                assert(final(events)@ =~= old(events)@ + seq![
                    EventView::Subscribed { user, channel },
                ]);
            },
        }
    } else {
        assert(old(events)@ =~= old(events)@ + Seq::<EventView>::empty());
    }
    Ok(())
}

/// Switches the (user, channel) membership off, uncounts it, and reports it.
///
/// Does nothing if the membership is already off. Fails with `Underflow`,
/// changing nothing, if the user's counter is zero although the membership
/// is on.
fn _unsubscribe(
    user_storage: &mut UserStorage,
    subscription_storage: &mut Subscription,
    user: Identity,
    channel: Identity,
    events: &mut EventLog,
) -> (r: Result<(), PushCommError>)
    ensures
        match spec_unsubscribe_record(
            *old(user_storage),
            *old(subscription_storage),
            user,
            channel,
        ) {
            Ok((account, subscription, emitted)) => r is Ok && *final(user_storage) == account
                && *final(subscription_storage) == subscription && final(events)@ == old(events)@ + emitted,
            Err(e) => r == Err::<(), PushCommError>(e) && *final(user_storage) == *old(user_storage) && *final(subscription_storage) == *old(subscription_storage) && final(events)@
                == old(events)@,
        },
{
    if subscription_storage.is_subscribed {
        match user_storage.user_subscribe_count.checked_sub(1) {
            None => {
                return Err(PushCommError::Underflow);
            },
            Some(count) => {
                user_storage.user_subscribe_count = count;
                subscription_storage.is_subscribed = false;
                events.emit(Event::Unsubscribed(Unsubscribed { user, channel }));
                assert(final(events)@ =~= old(events)@ + seq![
                    EventView::Unsubscribed { user, channel },
                ]);
            },
        }
    } else {
        assert(old(events)@ =~= old(events)@ + Seq::<EventView>::empty());
    }
    Ok(())
}

/// Subscribes the signer to `channel` at ledger time `slot`.
///
/// Activates the signer's account if this is its first subscription, then
/// switches the membership on. Subscribing again changes nothing. Fails with
/// `Overflow` if either counter is exhausted; a failure in the second step
/// also undoes the first.
pub fn subscribe(ctx: &mut SubscribeCTX, channel: Identity, slot: u64, events: &mut EventLog) -> (r:
    Result<(), PushCommError>)
    ensures
        match spec_subscribe(
            old(ctx).storage,
            old(ctx).subscription,
            old(ctx).comm_storage@,
            old(ctx).signer,
            channel,
            slot,
        ) {
            Ok(outcome) => r is Ok && final(ctx).storage == outcome.user && final(ctx).subscription == outcome.subscription && final(ctx).comm_storage@ == outcome.config
                && final(events)@ == old(events)@ + outcome.emitted,
            Err(e) => r == Err::<(), PushCommError>(e) && final(ctx).storage == old(ctx).storage
                && final(ctx).subscription == old(ctx).subscription && final(ctx).comm_storage@
                == old(ctx).comm_storage@ && final(events)@ == old(events)@,
        },
        final(ctx).signer == old(ctx).signer,
{
    let saved_user = ctx.storage;
    let saved_count = ctx.comm_storage.user_count;
    _add_user(&mut ctx.storage, &mut ctx.comm_storage, slot)?;
    match _subscribe(&mut ctx.storage, &mut ctx.subscription, ctx.signer, channel, events) {
        Ok(()) => Ok(()),
        Err(e) => {
            ctx.storage = saved_user;
            ctx.comm_storage.user_count = saved_count;
            Err(e)
        },
    }
}

/// Unsubscribes the signer from `channel`.
///
/// Unsubscribing from a channel the signer does not receive changes nothing.
/// Fails with `Underflow`, changing nothing, if the signer's counter is zero
/// although the membership is on.
pub fn unsubscribe(ctx: &mut UnsubscribeCTX, channel: Identity, events: &mut EventLog) -> (r: Result<
    (),
    PushCommError,
>)
    ensures
        match spec_unsubscribe_record(
            old(ctx).storage,
            old(ctx).subscription,
            old(ctx).signer,
            channel,
        ) {
            Ok((account, subscription, emitted)) => r is Ok && final(ctx).storage == account
                && final(ctx).subscription == subscription && final(events)@ == old(events)@
                + emitted,
            Err(e) => r == Err::<(), PushCommError>(e) && final(ctx).storage == old(ctx).storage
                && final(ctx).subscription == old(ctx).subscription && final(events)@ == old(events)@,
        },
        final(ctx).comm_storage@ == old(ctx).comm_storage@,
        final(ctx).signer == old(ctx).signer,
{
    _unsubscribe(&mut ctx.storage, &mut ctx.subscription, ctx.signer, channel, events)
}

} // verus!
