//! Typed events and the append-only log that operations write them to.
//!
//! The log is a side channel: it is separate from an operation's result, so
//! a caller can look at what was emitted independently of success or failure.

use vstd::prelude::*;
use crate::identity::Identity;

verus! {

/// A channel announced the address it uses on a foreign chain.
#[derive(Debug, PartialEq, Eq)]
pub struct ChannelAlias {
    pub chain_name: String,
    pub chain_cluster: String,
    pub channel: Identity,
    pub ethereum_channel_address: String,
}

/// A channel allowed a delegate to send on its behalf.
#[derive(Clone, Copy, Debug, PartialEq, Eq)]
pub struct AddDelegate {
    pub channel: Identity,
    pub delegate: Identity,
}

/// A channel withdrew a delegate's permission.
#[derive(Clone, Copy, Debug, PartialEq, Eq)]
pub struct RemoveDelegate {
    pub channel: Identity,
    pub delegate: Identity,
}

/// A user started receiving a channel.
#[derive(Clone, Copy, Debug, PartialEq, Eq)]
pub struct Subscribed {
    pub user: Identity,
    pub channel: Identity,
}

/// A user stopped receiving a channel.
#[derive(Clone, Copy, Debug, PartialEq, Eq)]
pub struct Unsubscribed {
    pub user: Identity,
    pub channel: Identity,
}

/// A notification went out from a channel to a recipient.
#[derive(Debug, PartialEq, Eq)]
pub struct SendNotification {
    pub channel: Identity,
    pub recipient: Identity,
    pub message: Vec<u8>,
}

/// A user stored a notification preference for a channel.
#[derive(Debug, PartialEq, Eq)]
pub struct UserNotificationSettingsAdded {
    pub channel: Identity,
    pub user: Identity,
    pub notif_id: u64,
    pub notif_settings: String,
}

/// Any one event.
#[derive(Debug, PartialEq, Eq)]
pub enum Event {
    ChannelAlias(ChannelAlias),
    AddDelegate(AddDelegate),
    RemoveDelegate(RemoveDelegate),
    Subscribed(Subscribed),
    Unsubscribed(Unsubscribed),
    SendNotification(SendNotification),
    UserNotificationSettingsAdded(UserNotificationSettingsAdded),
}

/// Mathematical value of an [`Event`].
#[verifier::ext_equal]
pub enum EventView {
    ChannelAlias {
        chain_name: Seq<char>,
        chain_cluster: Seq<char>,
        channel: Identity,
        ethereum_channel_address: Seq<char>,
    },
    AddDelegate { channel: Identity, delegate: Identity },
    RemoveDelegate { channel: Identity, delegate: Identity },
    Subscribed { user: Identity, channel: Identity },
    Unsubscribed { user: Identity, channel: Identity },
    SendNotification { channel: Identity, recipient: Identity, message: Seq<u8> },
    UserNotificationSettingsAdded {
        channel: Identity,
        user: Identity,
        notif_id: u64,
        notif_settings: Seq<char>,
    },
}

impl View for Event {
    type V = EventView;

    open spec fn view(&self) -> EventView {
        match *self {
            Event::ChannelAlias(e) => EventView::ChannelAlias {
                chain_name: e.chain_name@,
                chain_cluster: e.chain_cluster@,
                channel: e.channel,
                ethereum_channel_address: e.ethereum_channel_address@,
            },
            Event::AddDelegate(e) => EventView::AddDelegate {
                channel: e.channel,
                delegate: e.delegate,
            },
            Event::RemoveDelegate(e) => EventView::RemoveDelegate {
                channel: e.channel,
                delegate: e.delegate,
            },
            Event::Subscribed(e) => EventView::Subscribed { user: e.user, channel: e.channel },
            Event::Unsubscribed(e) => EventView::Unsubscribed { user: e.user, channel: e.channel },
            Event::SendNotification(e) => EventView::SendNotification {
                channel: e.channel,
                recipient: e.recipient,
                message: e.message@,
            },
            Event::UserNotificationSettingsAdded(e) => EventView::UserNotificationSettingsAdded {
                channel: e.channel,
                user: e.user,
                notif_id: e.notif_id,
                notif_settings: e.notif_settings@,
            },
        }
    }
}

/// The append-only output log. Entries are never changed or removed.
#[derive(Debug, PartialEq, Eq)]
pub struct EventLog {
    entries: Vec<Event>,
}

impl View for EventLog {
    type V = Seq<EventView>;

    closed spec fn view(&self) -> Seq<EventView> {
        self.entries@.map_values(|e: Event| e@)
    }
}

impl EventLog {
    /// An empty log.
    pub fn new() -> (r: Self)
        ensures
            r@ == Seq::<EventView>::empty(),
    {
        let r = EventLog { entries: Vec::new() };
        assert(r@ =~= Seq::<EventView>::empty());
        r
    }

    /// Appends one event.
    pub fn emit(&mut self, event: Event)
        ensures
            final(self)@ == old(self)@.push(event@),
    {
        self.entries.push(event);
        assert(self@ =~= old(self)@.push(event@));
    }

    /// Number of events emitted so far.
    pub fn len(&self) -> (r: usize)
        ensures
            r == self@.len(),
    {
        self.entries.len()
    }

    /// The `i`-th event, counting from the oldest.
    pub fn get(&self, i: usize) -> (r: Option<&Event>)
        ensures
            match r {
                Some(e) => i < self@.len() && e@ == self@[i as int],
                None => i >= self@.len(),
            },
    {
        if i < self.entries.len() {
            Some(&self.entries[i])
        } else {
            None
        }
    }
}

} // verus!
