//! The mathematical model of the dispatcher: what each event does to the
//! registry, and which commands it calls for.

use crate::command::{Channel, Diagnostic, ServerCommandView};
use crate::protocol::{ClientId, ClientMessageView, ServerMessageView};
use crate::registry::Registry;
use vstd::prelude::*;

verus! {

/// Something that reaches the dispatcher from the transport.
pub enum ServerEventView {
    /// A client message, with the connection it arrived on.
    Message { client_id: ClientId, message: ClientMessageView },
    /// The transport lost the connection.
    ConnectionLost { client_id: ClientId },
    /// The transport could not deliver a message to the connection.
    DeliveryFailed { client_id: ClientId },
}

/// The registry after a join: the first join of an identifier registers
/// it, a later one changes nothing.
pub open spec fn users_after_join(users: Registry, client_id: ClientId, name: Seq<char>) -> Registry {
    if users.contains_key(client_id) {
        users
    } else {
        users.insert(client_id, name)
    }
}

/// The commands for a join. A first join initialises the joiner with the
/// registry as it stands after the insertion, then announces the joiner to
/// everyone registered, the joiner included. A repeated join is reported
/// and dropped.
pub open spec fn join_commands(users: Registry, client_id: ClientId, name: Seq<char>) -> Seq<
    ServerCommandView,
> {
    if users.contains_key(client_id) {
        seq![ServerCommandView::Report { diagnostic: Diagnostic::DuplicateJoin { client_id } }]
    } else {
        let joined = users.insert(client_id, name);
        seq![
            ServerCommandView::Send {
                client_id,
                channel: Channel::OrderedReliable,
                message: ServerMessageView::InitClient { client_id, usernames: joined },
            },
            ServerCommandView::SendGroup {
                client_ids: joined.dom(),
                channel: Channel::OrderedReliable,
                message: ServerMessageView::ClientConnected { client_id, username: name },
            },
        ]
    }
}

/// The registry after the shared disconnect path.
pub open spec fn users_after_disconnect(users: Registry, client_id: ClientId) -> Registry {
    users.remove(client_id)
}

/// The commands of the shared disconnect path: a registered identifier
/// is announced as gone to those that remain, an unknown one is reported.
pub open spec fn disconnect_commands(users: Registry, client_id: ClientId) -> Seq<
    ServerCommandView,
> {
    if users.contains_key(client_id) {
        seq![
            ServerCommandView::SendGroup {
                client_ids: users.remove(client_id).dom(),
                channel: Channel::OrderedReliable,
                message: ServerMessageView::ClientDisconnected { client_id },
            },
        ]
    } else {
        seq![ServerCommandView::Report { diagnostic: Diagnostic::UnknownDisconnect { client_id } }]
    }
}

/// The commands for a chat message: it goes to everyone registered, on the
/// unordered channel, whether or not its sender has joined.
pub open spec fn chat_commands(users: Registry, client_id: ClientId, message: Seq<char>) -> Seq<
    ServerCommandView,
> {
    seq![
        ServerCommandView::SendGroup {
            client_ids: users.dom(),
            channel: Channel::UnorderedReliable,
            message: ServerMessageView::ChatMessage { client_id, message },
        },
    ]
}

/// The commands for a failed delivery: it is reported, and that is all.
pub open spec fn delivery_failure_commands(client_id: ClientId) -> Seq<ServerCommandView> {
    seq![ServerCommandView::Report { diagnostic: Diagnostic::DeliveryFailure { client_id } }]
}

/// The registry after one client message.
pub open spec fn users_after_message(
    users: Registry,
    client_id: ClientId,
    message: ClientMessageView,
) -> Registry {
    match message {
        ClientMessageView::Join { name } => users_after_join(users, client_id, name),
        ClientMessageView::Disconnect => users_after_disconnect(users, client_id),
        ClientMessageView::ChatMessage { .. } => users,
    }
}

/// The commands for one client message. An explicit disconnect first has
/// the transport terminate the connection, then takes the shared path.
pub open spec fn message_commands(
    users: Registry,
    client_id: ClientId,
    message: ClientMessageView,
) -> Seq<ServerCommandView> {
    match message {
        ClientMessageView::Join { name } => join_commands(users, client_id, name),
        ClientMessageView::Disconnect => seq![ServerCommandView::DisconnectClient { client_id }]
            + disconnect_commands(users, client_id),
        ClientMessageView::ChatMessage { message } => chat_commands(users, client_id, message),
    }
}

/// The registry after one event.
pub open spec fn users_after_event(users: Registry, event: ServerEventView) -> Registry {
    match event {
        ServerEventView::Message { client_id, message } => users_after_message(
            users,
            client_id,
            message,
        ),
        ServerEventView::ConnectionLost { client_id } => users_after_disconnect(users, client_id),
        ServerEventView::DeliveryFailed { .. } => users,
    }
}

/// The commands for one event.
pub open spec fn event_commands(users: Registry, event: ServerEventView) -> Seq<
    ServerCommandView,
> {
    match event {
        ServerEventView::Message { client_id, message } => message_commands(
            users,
            client_id,
            message,
        ),
        ServerEventView::ConnectionLost { client_id } => disconnect_commands(users, client_id),
        ServerEventView::DeliveryFailed { client_id } => delivery_failure_commands(client_id),
    }
}

/// The registry after a run of events, handled one after the other.
pub open spec fn users_after_events(users: Registry, events: Seq<ServerEventView>) -> Registry
    decreases events.len(),
{
    if events.len() == 0 {
        users
    } else {
        users_after_event(users_after_events(users, events.drop_last()), events.last())
    }
}

/// The commands for a run of events: those of each event, in order, each
/// decided on the registry that the events before it left.
pub open spec fn events_commands(users: Registry, events: Seq<ServerEventView>) -> Seq<
    ServerCommandView,
>
    decreases events.len(),
{
    if events.len() == 0 {
        Seq::empty()
    } else {
        events_commands(users, events.drop_last()) + event_commands(
            users_after_events(users, events.drop_last()),
            events.last(),
        )
    }
}

/// The events that a list of received messages stands for, each with the
/// connection it arrived on.
pub open spec fn message_events(inbox: Seq<(ClientId, ClientMessageView)>) -> Seq<
    ServerEventView,
> {
    Seq::new(
        inbox.len(),
        |i: int| ServerEventView::Message { client_id: inbox[i].0, message: inbox[i].1 },
    )
}

/// The events that a list of lost connections stands for.
pub open spec fn loss_events(lost: Seq<ClientId>) -> Seq<ServerEventView> {
    Seq::new(lost.len(), |i: int| ServerEventView::ConnectionLost { client_id: lost[i] })
}

} // verus!
