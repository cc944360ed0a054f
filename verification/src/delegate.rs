//! Delegates: identities that a channel allows to send on its behalf.
//!
//! The permission is keyed by the signer as the channel, so a caller can
//! only manage its own delegates. Granting or withdrawing a permission a
//! second time changes nothing.

use vstd::prelude::*;
use crate::context::{AddDelegateNotifSenders, RemoveDelegateNotifSenders};
use crate::errors::PushCommError;
use crate::events::{AddDelegate, Event, EventLog, EventView, RemoveDelegate};
use crate::identity::Identity;
use crate::state::DelegatedNotificationSenders;

verus! {

/// What granting does to the permission, and what it emits.
pub open spec fn spec_add_delegate(
    storage: DelegatedNotificationSenders,
    signer: Identity,
    delegate: Identity,
) -> (DelegatedNotificationSenders, Seq<EventView>) {
    if storage.is_delegate {
        (storage, Seq::empty())
    } else {
        (
            DelegatedNotificationSenders { channel: signer, delegate, is_delegate: true },
            seq![EventView::AddDelegate { channel: signer, delegate }],
        )
    }
}

/// What withdrawing does to the permission, and what it emits.
pub open spec fn spec_remove_delegate(
    storage: DelegatedNotificationSenders,
    signer: Identity,
    delegate: Identity,
) -> (DelegatedNotificationSenders, Seq<EventView>) {
    if !storage.is_delegate {
        (storage, Seq::empty())
    } else {
        (
            DelegatedNotificationSenders { channel: signer, delegate, is_delegate: false },
            seq![EventView::RemoveDelegate { channel: signer, delegate }],
        )
    }
}

/// Allows `delegate` to send for the signer's channel. Always succeeds.
pub fn add_delegate(ctx: &mut AddDelegateNotifSenders, delegate: Identity, events: &mut EventLog) -> (r:
    Result<(), PushCommError>)
    ensures
        r is Ok,
        final(ctx).storage == spec_add_delegate(old(ctx).storage, old(ctx).signer, delegate).0,
        final(events)@ == old(events)@ + spec_add_delegate(
            old(ctx).storage,
            old(ctx).signer,
            delegate,
        ).1,
        final(ctx).signer == old(ctx).signer,
{
    if !ctx.storage.is_delegate {
        ctx.storage.channel = ctx.signer;
        ctx.storage.delegate = delegate;
        ctx.storage.is_delegate = true;
        events.emit(Event::AddDelegate(AddDelegate { channel: ctx.signer, delegate }));
        assert(final(events)@ =~= old(events)@ + seq![
            EventView::AddDelegate { channel: ctx.signer, delegate },
        ]);
    } else {
        assert(old(events)@ =~= old(events)@ + Seq::<EventView>::empty());
    }
    Ok(())
}

/// Withdraws the permission of `delegate` to send for the signer's channel.
/// Always succeeds.
pub fn remove_delegate(
    ctx: &mut RemoveDelegateNotifSenders,
    delegate: Identity,
    events: &mut EventLog,
) -> (r: Result<(), PushCommError>)
    ensures
        r is Ok,
        final(ctx).storage == spec_remove_delegate(old(ctx).storage, old(ctx).signer, delegate).0,
        final(events)@ == old(events)@ + spec_remove_delegate(
            old(ctx).storage,
            old(ctx).signer,
            delegate,
        ).1,
        final(ctx).signer == old(ctx).signer,
{
    if ctx.storage.is_delegate {
        ctx.storage.channel = ctx.signer;
        ctx.storage.delegate = delegate;
        ctx.storage.is_delegate = false;
        events.emit(Event::RemoveDelegate(RemoveDelegate { channel: ctx.signer, delegate }));
        assert(final(events)@ =~= old(events)@ + seq![
            EventView::RemoveDelegate { channel: ctx.signer, delegate },
        ]);
    } else {
        assert(old(events)@ =~= old(events)@ + Seq::<EventView>::empty());
    }
    Ok(())
}

} // verus!
