//! Notification preferences: one free-form text per (user, channel), which
//! only a subscribed user may write.

use vstd::prelude::*;
use crate::context::UserChannelSettingsCTX;
use crate::errors::PushCommError;
use crate::events::{Event, EventLog, EventView, UserNotificationSettingsAdded};
use crate::identity::Identity;
use crate::state::{Subscription, UserNotificationSettingsView};
use crate::text::{check_settings_fit, compose_notif_settings, notif_settings_text, settings_fit};

verus! {

/// What storing a preference does: the new record and the event, or the
/// failure. The membership is checked before the text.
pub open spec fn spec_set_user_notification_settings(
    subscription: Subscription,
    signer: Identity,
    channel: Identity,
    notif_id: u64,
    notif_settings: Seq<char>,
) -> Result<(UserNotificationSettingsView, EventView), PushCommError> {
    if !subscription.is_subscribed {
        Err(PushCommError::NotSubscribed)
    } else if !settings_fit(notif_settings) {
        Err(PushCommError::InvalidArgument)
    } else {
        let text = notif_settings_text(notif_id, notif_settings);
        Ok(
            (
                UserNotificationSettingsView { channel, user: signer, notif_settings: text },
                EventView::UserNotificationSettingsAdded {
                    channel,
                    user: signer,
                    notif_id,
                    notif_settings: text,
                },
            ),
        )
    }
}

/// Stores the signer's preference for `channel`, replacing whatever the slot
/// held, and reports it in the log.
///
/// Fails with `NotSubscribed` unless the signer receives the channel, and
/// with `InvalidArgument` if the text is longer than 100 bytes. On failure
/// nothing changes.
pub fn set_user_notification_settings(
    ctx: &mut UserChannelSettingsCTX,
    channel: Identity,
    notif_id: u64,
    notif_settings: String,
    events: &mut EventLog,
) -> (r: Result<(), PushCommError>)
    ensures
        match spec_set_user_notification_settings(
            old(ctx).subscription,
            old(ctx).signer,
            channel,
            notif_id,
            notif_settings@,
        ) {
            Ok((record, event)) => r is Ok && final(ctx).storage@ == record && final(events)@
                == old(events)@.push(event),
            Err(e) => r == Err::<(), PushCommError>(e) && final(ctx).storage@ == old(ctx).storage@ && final(events)@ == old(events)@,
        },
        final(ctx).subscription == old(ctx).subscription,
        final(ctx).signer == old(ctx).signer,
{
    if !ctx.subscription.is_subscribed {
        return Err(PushCommError::NotSubscribed);
    }
    if !check_settings_fit(notif_settings.as_str()) {
        return Err(PushCommError::InvalidArgument);
    }
    let text = compose_notif_settings(notif_id, notif_settings.as_str());
    ctx.storage.channel = channel;
    ctx.storage.user = ctx.signer;
    ctx.storage.notif_settings = text.clone();
    events.emit(
        Event::UserNotificationSettingsAdded(
            UserNotificationSettingsAdded {
                channel,
                user: ctx.signer,
                notif_id,
                notif_settings: text,
            },
        ),
    );
    Ok(())
}

} // verus!
