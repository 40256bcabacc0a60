//! The message dispatcher and the shared disconnect path.

use crate::command::{
    commands_view, commands_well_formed, lemma_commands_view_concat, Channel, Diagnostic,
    ServerCommand,
};
use crate::model::{
    delivery_failure_commands, disconnect_commands, event_commands, events_commands,
    loss_events, message_commands, message_events, users_after_disconnect, users_after_event,
    users_after_events, users_after_message, ServerEventView,
};
use crate::protocol::{ClientId, ClientMessage, ClientMessageView, ServerMessage};
use crate::registry::Users;
use vstd::prelude::*;

verus! {

/// Something that reaches the dispatcher from the transport. Client
/// messages, connection losses and failed deliveries all come in through
/// this one queue, so that the registry is changed in one place.
#[derive(Debug, Clone, PartialEq, Eq)]
pub enum ServerEvent {
    /// A client message, with the connection it arrived on.
    Message { client_id: ClientId, message: ClientMessage },
    /// The transport lost the connection.
    ConnectionLost { client_id: ClientId },
    /// The transport could not deliver a message to the connection.
    DeliveryFailed { client_id: ClientId },
}

impl View for ServerEvent {
    type V = ServerEventView;

    open spec fn view(&self) -> ServerEventView {
        match self {
            ServerEvent::Message { client_id, message } => ServerEventView::Message {
                client_id: *client_id,
                message: message@,
            },
            ServerEvent::ConnectionLost { client_id } => ServerEventView::ConnectionLost {
                client_id: *client_id,
            },
            ServerEvent::DeliveryFailed { client_id } => ServerEventView::DeliveryFailed {
                client_id: *client_id,
            },
        }
    }
}

/// What a list of events says, event by event.
pub open spec fn events_view(events: Seq<ServerEvent>) -> Seq<ServerEventView> {
    events.map_values(|event: ServerEvent| event@)
}

/// Removes a connection from the registry and tells those that remain. The
/// connection itself is assumed to be gone already. An identifier that is
/// not registered is reported and nothing else happens, so that a loss and
/// an explicit disconnect may both arrive for one connection.
pub fn handle_disconnect(users: &mut Users, client_id: ClientId) -> (commands: Vec<ServerCommand>)
    ensures
        final(users)@ == users_after_disconnect(old(users)@, client_id),
        commands_view(commands@) == disconnect_commands(old(users)@, client_id),
        commands_well_formed(commands@),
{
    let mut commands: Vec<ServerCommand> = Vec::new();
    match users.remove(client_id) {
        Ok(_) => {
            commands.push(
                ServerCommand::SendGroup {
                    client_ids: users.all_ids(),
                    channel: Channel::OrderedReliable,
                    message: ServerMessage::ClientDisconnected { client_id },
                },
            );
        },
        Err(_) => {
            assert(users@ =~= old(users)@.remove(client_id));
            commands.push(
                ServerCommand::Report { diagnostic: Diagnostic::UnknownDisconnect { client_id } },
            );
        },
    }
    assert(commands_view(commands@) =~= disconnect_commands(old(users)@, client_id));
    commands
}

/// Handles one message from the connection `client_id`.
///
/// A join registers the connection unless it is registered already,
/// initialises it with the registry as it then stands, and announces it to
/// everyone registered. A disconnect has the transport terminate the
/// connection and then takes the shared disconnect path. A chat message is
/// passed on to everyone registered, on the unordered channel.
pub fn handle_client_message(
    users: &mut Users,
    client_id: ClientId,
    message: ClientMessage,
) -> (commands: Vec<ServerCommand>)
    ensures
        final(users)@ == users_after_message(old(users)@, client_id, message@),
        commands_view(commands@) == message_commands(old(users)@, client_id, message@),
        commands_well_formed(commands@),
{
    let mut commands: Vec<ServerCommand> = Vec::new();
    match message {
        ClientMessage::Join { name } => {
            match users.insert(client_id, name.clone()) {
                Ok(_) => {
                    commands.push(
                        ServerCommand::Send {
                            client_id,
                            channel: Channel::OrderedReliable,
                            message: ServerMessage::InitClient {
                                client_id,
                                usernames: users.snapshot(),
                            },
                        },
                    );
                    commands.push(
                        ServerCommand::SendGroup {
                            client_ids: users.all_ids(),
                            channel: Channel::OrderedReliable,
                            message: ServerMessage::ClientConnected { client_id, username: name },
                        },
                    );
                },
                Err(_) => {
                    commands.push(
                        ServerCommand::Report {
                            diagnostic: Diagnostic::DuplicateJoin { client_id },
                        },
                    );
                },
            }
        },
        ClientMessage::Disconnect {  } => {
            commands.push(ServerCommand::DisconnectClient { client_id });
            let mut notices = handle_disconnect(users, client_id);
            let ghost before = commands@;
            let ghost added = notices@;
            commands.append(&mut notices);
            proof {
                lemma_commands_view_concat(before, added);
            }
        },
        ClientMessage::ChatMessage { message } => {
            commands.push(
                ServerCommand::SendGroup {
                    client_ids: users.all_ids(),
                    channel: Channel::UnorderedReliable,
                    message: ServerMessage::ChatMessage { client_id, message },
                },
            );
        },
    }
    assert(commands_view(commands@) =~= message_commands(old(users)@, client_id, message@));
    commands
}

/// Records that the transport could not deliver a message to `client_id`.
/// The registry is not consulted and does not change: one unreachable
/// connection concerns no other.
pub fn handle_delivery_failure(client_id: ClientId) -> (commands: Vec<ServerCommand>)
    ensures
        commands_view(commands@) == delivery_failure_commands(client_id),
        commands_well_formed(commands@),
{
    let mut commands: Vec<ServerCommand> = Vec::new();
    commands.push(ServerCommand::Report { diagnostic: Diagnostic::DeliveryFailure { client_id } });
    assert(commands_view(commands@) =~= delivery_failure_commands(client_id));
    commands
}

/// Handles one event: a client message goes to the dispatcher, a lost
/// connection takes the shared disconnect path, a failed delivery is
/// reported.
pub fn handle_event(users: &mut Users, event: ServerEvent) -> (commands: Vec<ServerCommand>)
    ensures
        final(users)@ == users_after_event(old(users)@, event@),
        commands_view(commands@) == event_commands(old(users)@, event@),
        commands_well_formed(commands@),
{
    match event {
        ServerEvent::Message { client_id, message } => handle_client_message(
            users,
            client_id,
            message,
        ),
        ServerEvent::ConnectionLost { client_id } => handle_disconnect(users, client_id),
        ServerEvent::DeliveryFailed { client_id } => handle_delivery_failure(client_id),
    }
}

/// Runs one dispatch cycle: handles the pending events strictly in the
/// order given, each on the registry that the events before it left behind,
/// and returns all their commands in that order.
pub fn handle_events(users: &mut Users, events: Vec<ServerEvent>) -> (commands: Vec<ServerCommand>)
    ensures
        final(users)@ == users_after_events(old(users)@, events_view(events@)),
        commands_view(commands@) == events_commands(old(users)@, events_view(events@)),
        commands_well_formed(commands@),
{
    let mut commands: Vec<ServerCommand> = Vec::new();
    let ghost pending = events_view(events@);
    assert(pending.take(0) =~= Seq::<ServerEventView>::empty());
    assert(commands_view(commands@) =~= Seq::empty());
    for event in it: events.into_iter()
        invariant
            it.seq() == events@,
            pending == events_view(events@),
            users@ == users_after_events(old(users)@, pending.take(it.index())),
            commands_view(commands@) == events_commands(old(users)@, pending.take(it.index())),
            commands_well_formed(commands@),
    {
        let ghost done = pending.take(it.index());
        let ghost before = commands@;
        let ghost current = event@;
        let mut step = handle_event(users, event);
        let ghost added = step@;
        commands.append(&mut step);
        proof {
            let next = pending.take(it.index() + 1);
            assert(next.drop_last() =~= done);
            assert(next.last() == current);
            lemma_commands_view_concat(before, added);
        }
    }
    assert(pending.take(pending.len() as int) =~= pending);
    commands
}

/// What a list of received messages says, entry by entry.
pub open spec fn inbox_view(inbox: Seq<(ClientId, ClientMessage)>) -> Seq<
    (ClientId, ClientMessageView),
> {
    inbox.map_values(|entry: (ClientId, ClientMessage)| (entry.0, entry.1@))
}

/// Handles the pending client messages, each with the connection it
/// arrived on, strictly in the order given. Every message is decided on
/// the registry that the messages before it left behind.
pub fn handle_client_messages(
    users: &mut Users,
    inbox: Vec<(ClientId, ClientMessage)>,
) -> (commands: Vec<ServerCommand>)
    ensures
        final(users)@ == users_after_events(old(users)@, message_events(inbox_view(inbox@))),
        commands_view(commands@) == events_commands(
            old(users)@,
            message_events(inbox_view(inbox@)),
        ),
        commands_well_formed(commands@),
{
    let mut commands: Vec<ServerCommand> = Vec::new();
    let ghost events = message_events(inbox_view(inbox@));
    assert(events.take(0) =~= Seq::<ServerEventView>::empty());
    assert(commands_view(commands@) =~= Seq::empty());
    for entry in it: inbox.into_iter()
        invariant
            it.seq() == inbox@,
            events == message_events(inbox_view(inbox@)),
            users@ == users_after_events(old(users)@, events.take(it.index())),
            commands_view(commands@) == events_commands(old(users)@, events.take(it.index())),
            commands_well_formed(commands@),
    {
        let ghost done = events.take(it.index());
        let ghost before = commands@;
        let (client_id, message) = entry;
        let mut step = handle_client_message(users, client_id, message);
        let ghost added = step@;
        commands.append(&mut step);
        proof {
            let next = events.take(it.index() + 1);
            assert(next.drop_last() =~= done);
            assert(next.last() == ServerEventView::Message { client_id, message: message@ });
            lemma_commands_view_concat(before, added);
        }
    }
    assert(events.take(events.len() as int) =~= events);
    commands
}

/// Handles the connections that the transport reports as lost, in the
/// order given: each takes the shared disconnect path.
pub fn handle_server_events(users: &mut Users, lost: Vec<ClientId>) -> (commands: Vec<ServerCommand>)
    ensures
        final(users)@ == users_after_events(old(users)@, loss_events(lost@)),
        commands_view(commands@) == events_commands(old(users)@, loss_events(lost@)),
        commands_well_formed(commands@),
{
    let mut commands: Vec<ServerCommand> = Vec::new();
    let ghost events = loss_events(lost@);
    assert(events.take(0) =~= Seq::<ServerEventView>::empty());
    assert(commands_view(commands@) =~= Seq::empty());
    for client_id in it: lost.into_iter()
        invariant
            it.seq() == lost@,
            events == loss_events(lost@),
            users@ == users_after_events(old(users)@, events.take(it.index())),
            commands_view(commands@) == events_commands(old(users)@, events.take(it.index())),
            commands_well_formed(commands@),
    {
        let ghost done = events.take(it.index());
        let ghost before = commands@;
        let mut step = handle_disconnect(users, client_id);
        let ghost added = step@;
        commands.append(&mut step);
        proof {
            let next = events.take(it.index() + 1);
            assert(next.drop_last() =~= done);
            assert(next.last() == ServerEventView::ConnectionLost { client_id });
            lemma_commands_view_concat(before, added);
        }
    }
    assert(events.take(events.len() as int) =~= events);
    commands
}

} // verus!
