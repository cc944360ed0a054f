//! Outbound notifications and channel-alias announcements. Neither changes a
//! record: their only effect is what they append to the event log.

use vstd::prelude::*;
use crate::context::{AliasVerificationCTX, SendNotificationCTX};
use crate::errors::PushCommError;
use crate::events::{ChannelAlias, Event, EventLog, EventView, SendNotification};
use crate::guard::{check_may_send, may_send};
use crate::identity::Identity;
use crate::state::{DelegatedNotificationSenders, CHAIN_NAME};
use crate::text::{check_channel_alias, is_channel_alias};

verus! {

/// Outcome of a send: the event to emit, or `Unauthorized` for a signer that
/// may not send for the channel.
pub open spec fn spec_send_notification(
    delegate_storage: DelegatedNotificationSenders,
    signer: Identity,
    channel: Identity,
    recipient: Identity,
    message: Seq<u8>,
) -> Result<EventView, PushCommError> {
    if may_send(delegate_storage, signer, channel) {
        Ok(EventView::SendNotification { channel, recipient, message })
    } else {
        Err(PushCommError::Unauthorized)
    }
}

/// Sends `message` from `channel` to `recipient`.
///
/// The signer may send if it is the channel, or an active delegate of it;
/// then exactly one `SendNotification` is emitted. Anyone else fails with
/// `Unauthorized`, and nothing is emitted. No record changes either way.
pub fn send_notification(
    ctx: &SendNotificationCTX,
    channel: Identity,
    recipient: Identity,
    message: Vec<u8>,
    events: &mut EventLog,
) -> (r: Result<(), PushCommError>)
    ensures
        match spec_send_notification(
            ctx.delegate_storage,
            ctx.signer,
            channel,
            recipient,
            message@,
        ) {
            Ok(event) => r is Ok && final(events)@ == old(events)@.push(event),
            Err(e) => r == Err::<(), PushCommError>(e) && final(events)@ == old(events)@,
        },
{
    if !check_may_send(&ctx.delegate_storage, &ctx.signer, &channel) {
        return Err(PushCommError::Unauthorized);
    }
    events.emit(Event::SendNotification(SendNotification { channel, recipient, message }));
    Ok(())
}

/// The announcement emitted for a well-formed alias.
pub open spec fn channel_alias_event(
    chain_cluster: Seq<char>,
    signer: Identity,
    channel_address: Seq<char>,
) -> EventView {
    EventView::ChannelAlias {
        chain_name: CHAIN_NAME@,
        chain_cluster,
        channel: signer,
        ethereum_channel_address: channel_address,
    }
}

/// Announces the address that the signer's channel uses on a foreign chain.
///
/// The address must be exactly 42 bytes long and begin with `0x`; anything
/// else fails with `InvalidArgument` and emits nothing. No record changes.
pub fn verify_channel_alias(
    ctx: &AliasVerificationCTX,
    channel_address: String,
    events: &mut EventLog,
) -> (r: Result<(), PushCommError>)
    ensures
        is_channel_alias(channel_address@) ==> r is Ok && final(events)@ == old(events)@.push(
            channel_alias_event(ctx.storage@.chain_cluster, ctx.signer, channel_address@),
        ),
        !is_channel_alias(channel_address@) ==> r == Err::<(), PushCommError>(
            PushCommError::InvalidArgument,
        ) && final(events)@ == old(events)@,
{
    if !check_channel_alias(channel_address.as_str()) {
        return Err(PushCommError::InvalidArgument);
    }
    events.emit(
        Event::ChannelAlias(
            ChannelAlias {
                chain_name: String::from_str(CHAIN_NAME),
                chain_cluster: ctx.storage.chain_cluster.clone(),
                channel: ctx.signer,
                ethereum_channel_address: channel_address,
            },
        ),
    );
    Ok(())
}

} // verus!
