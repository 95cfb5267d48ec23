//! The event dispatcher: which part of the bot a gateway event is for.

use crate::sync::SyncRequest;
use crate::text::same_text;
use vstd::prelude::*;

verus! {

/// The identifier of the button that asks for a sync.
pub const SYNC_ACTION: &'static str = "sync";

/// An event of the gateway, as far as the bot reads it.
#[derive(Debug, PartialEq, Eq)]
pub enum GatewayEvent {
    /// The session is up; the bot is logged in under `user_name`.
    Ready { user_name: String },
    /// A member used a component, such as a button, that carries
    /// `custom_id`.
    Component { custom_id: String, user_id: u64, guild_id: Option<u64> },
    /// A message arrived.
    Message { channel_id: u64, message_id: u64 },
    /// Anything else.
    Other,
}

/// What a [`GatewayEvent`] holds.
pub enum GatewayEventView {
    Ready { user_name: Seq<char> },
    Component { custom_id: Seq<char>, user_id: u64, guild_id: Option<u64> },
    Message { channel_id: u64, message_id: u64 },
    Other,
}

impl View for GatewayEvent {
    type V = GatewayEventView;

    open spec fn view(&self) -> GatewayEventView {
        match self {
            GatewayEvent::Ready { user_name } => GatewayEventView::Ready { user_name: user_name@ },
            GatewayEvent::Component {
                custom_id,
                user_id,
                guild_id,
            } => GatewayEventView::Component {
                custom_id: custom_id@,
                user_id: *user_id,
                guild_id: *guild_id,
            },
            GatewayEvent::Message { channel_id, message_id } => GatewayEventView::Message {
                channel_id: *channel_id,
                message_id: *message_id,
            },
            GatewayEvent::Other => GatewayEventView::Other,
        }
    }
}

/// Where an event goes.
#[derive(Debug, PartialEq, Eq)]
pub enum Dispatch {
    /// To the log: the bot is logged in under `user_name`.
    Announce { user_name: String },
    /// To the synchronisation flow.
    Sync { request: SyncRequest },
    /// To the image forward watcher.
    Watch { channel_id: u64, message_id: u64 },
    /// Nowhere.
    Ignore,
}

/// What a [`Dispatch`] holds.
pub enum DispatchView {
    Announce { user_name: Seq<char> },
    Sync { request: SyncRequest },
    Watch { channel_id: u64, message_id: u64 },
    Ignore,
}

impl View for Dispatch {
    type V = DispatchView;

    open spec fn view(&self) -> DispatchView {
        match self {
            Dispatch::Announce { user_name } => DispatchView::Announce { user_name: user_name@ },
            Dispatch::Sync { request } => DispatchView::Sync { request: *request },
            Dispatch::Watch { channel_id, message_id } => DispatchView::Watch {
                channel_id: *channel_id,
                message_id: *message_id,
            },
            Dispatch::Ignore => DispatchView::Ignore,
        }
    }
}

/// Where `event` goes. A component starts a sync if it carries the
/// identifier of the sync button, and is ignored if it carries any other.
pub open spec fn route_of(event: GatewayEventView) -> DispatchView {
    match event {
        GatewayEventView::Ready { user_name } => DispatchView::Announce { user_name },
        GatewayEventView::Component { custom_id, user_id, guild_id } => if custom_id
            == SYNC_ACTION@ {
            DispatchView::Sync { request: SyncRequest { user_id, guild_id } }
        } else {
            DispatchView::Ignore
        },
        GatewayEventView::Message { channel_id, message_id } => DispatchView::Watch {
            channel_id,
            message_id,
        },
        GatewayEventView::Other => DispatchView::Ignore,
    }
}

/// Routes an event.
pub fn dispatch(event: GatewayEvent) -> (route: Dispatch)
    ensures
        route@ == route_of(event@),
{
    match event {
        GatewayEvent::Ready { user_name } => Dispatch::Announce { user_name },
        GatewayEvent::Component { custom_id, user_id, guild_id } => {
            if same_text(custom_id.as_str(), SYNC_ACTION) {
                Dispatch::Sync { request: SyncRequest { user_id, guild_id } }
            } else {
                Dispatch::Ignore
            }
        },
        GatewayEvent::Message { channel_id, message_id } => Dispatch::Watch {
            channel_id,
            message_id,
        },
        GatewayEvent::Other => Dispatch::Ignore,
    }
}

} // verus!
