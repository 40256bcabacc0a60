//! What holds of the dispatcher and the lifecycle on every input, proved
//! over the model.

use crate::command::{Channel, Diagnostic, ServerCommandView};
use crate::lifecycle::{
    server_after_events, server_after_signal, signal_commands, InternalServerState,
    InternalServerView, LifecycleSignal,
};
use crate::model::{
    disconnect_commands, event_commands, events_commands, message_commands,
    users_after_disconnect, users_after_events, users_after_message, ServerEventView,
};
use crate::protocol::{ClientId, ClientMessageView, ServerMessageView};
use crate::registry::Registry;
use vstd::prelude::*;

verus! {

/// Whether `event` is a join sent by `client_id`.
pub open spec fn joins(event: ServerEventView, client_id: ClientId) -> bool {
    match event {
        ServerEventView::Message { client_id: sender, message: ClientMessageView::Join { .. } } => {
            sender == client_id
        },
        _ => false,
    }
}

/// Whether `event` takes `client_id` out of the registry: an explicit
/// disconnect sent by it, or the loss of its connection.
pub open spec fn removes(event: ServerEventView, client_id: ClientId) -> bool {
    match event {
        ServerEventView::Message { client_id: sender, message: ClientMessageView::Disconnect } => {
            sender == client_id
        },
        ServerEventView::ConnectionLost { client_id: lost } => lost == client_id,
        _ => false,
    }
}

/// Whether `client_id` has joined and has not been removed since: it was
/// registered at the start and no event removed it, or some event is a join
/// of it and no later event removed it.
pub open spec fn joined_and_not_removed(
    initial: Registry,
    events: Seq<ServerEventView>,
    client_id: ClientId,
) -> bool {
    ||| initial.contains_key(client_id) && forall|j: int|
        0 <= j < events.len() ==> !removes(#[trigger] events[j], client_id)
    ||| exists|i: int|
        0 <= i < events.len() && joins(#[trigger] events[i], client_id) && forall|j: int|
            i < j < events.len() ==> !removes(#[trigger] events[j], client_id)
}

proof fn lemma_joined_and_not_removed_step(
    initial: Registry,
    events: Seq<ServerEventView>,
    client_id: ClientId,
)
    requires
        events.len() > 0,
    ensures
        joined_and_not_removed(initial, events, client_id) <==> joins(events.last(), client_id) || (
        joined_and_not_removed(initial, events.drop_last(), client_id) && !removes(
            events.last(),
            client_id,
        )),
{
    let prefix = events.drop_last();
    let last = events.len() - 1;
    assert(forall|j: int| 0 <= j < prefix.len() ==> prefix[j] == events[j]);
    if joined_and_not_removed(initial, events, client_id) {
        if initial.contains_key(client_id) && forall|j: int|
            0 <= j < events.len() ==> !removes(#[trigger] events[j], client_id) {
            assert(!removes(events[last], client_id));
            assert(joined_and_not_removed(initial, prefix, client_id));
        } else {
            let i = choose|i: int|
                0 <= i < events.len() && joins(#[trigger] events[i], client_id) && forall|j: int|
                    i < j < events.len() ==> !removes(#[trigger] events[j], client_id);
            if i < last {
                assert(!removes(events[last], client_id));
                assert(joins(prefix[i], client_id));
                assert(joined_and_not_removed(initial, prefix, client_id));
            }
        }
    }
    if joins(events.last(), client_id) {
        assert(joins(events[last], client_id));
    } else if joined_and_not_removed(initial, prefix, client_id) && !removes(
        events.last(),
        client_id,
    ) {
        if initial.contains_key(client_id) && forall|j: int|
            0 <= j < prefix.len() ==> !removes(#[trigger] prefix[j], client_id) {
            assert forall|j: int| 0 <= j < events.len() implies !removes(
                #[trigger] events[j],
                client_id,
            ) by {
                if j < last {
                    assert(!removes(prefix[j], client_id));
                }
            }
        } else {
            let i = choose|i: int|
                0 <= i < prefix.len() && joins(#[trigger] prefix[i], client_id) && forall|j: int|
                    i < j < prefix.len() ==> !removes(#[trigger] prefix[j], client_id);
            assert(joins(events[i], client_id));
            assert forall|j: int| i < j < events.len() implies !removes(
                #[trigger] events[j],
                client_id,
            ) by {
                if j < last {
                    assert(!removes(prefix[j], client_id));
                }
            }
        }
    }
}

/// After any run of events, the registry holds exactly the identifiers
/// that have joined and have not been removed since.
pub proof fn registry_holds_who_joined_and_was_not_removed(
    initial: Registry,
    events: Seq<ServerEventView>,
)
    ensures
        users_after_events(initial, events).dom() == Set::new(
            |client_id: ClientId| joined_and_not_removed(initial, events, client_id),
        ),
    decreases events.len(),
{
    let after = users_after_events(initial, events);
    let expected = Set::new(
        |client_id: ClientId| joined_and_not_removed(initial, events, client_id),
    );
    assert forall|client_id: ClientId| after.dom().contains(client_id) == expected.contains(
        client_id,
    ) by {
        if events.len() == 0 {
        } else {
            let prefix = events.drop_last();
            registry_holds_who_joined_and_was_not_removed(initial, prefix);
            let before = users_after_events(initial, prefix);
            assert(before.dom().contains(client_id) == Set::new(
                |c: ClientId| joined_and_not_removed(initial, prefix, c),
            ).contains(client_id));
            lemma_joined_and_not_removed_step(initial, events, client_id);
        }
    }
    assert(after.dom() =~= expected);
}

/// The message that a command delivers, if it delivers one.
pub open spec fn delivered_message(command: ServerCommandView) -> Option<ServerMessageView> {
    match command {
        ServerCommandView::Send { message, .. } => Some(message),
        ServerCommandView::SendGroup { message, .. } => Some(message),
        _ => None,
    }
}

/// A join from an identifier that is already registered leaves the
/// registry, and so the stored name, as it was, and delivers nothing: it is
/// only reported, so that no second `ClientConnected` goes out.
pub proof fn repeated_join_changes_nothing(users: Registry, client_id: ClientId, name: Seq<char>)
    requires
        users.contains_key(client_id),
    ensures
        users_after_message(users, client_id, ClientMessageView::Join { name }) == users,
        message_commands(users, client_id, ClientMessageView::Join { name }) == seq![
            ServerCommandView::Report { diagnostic: Diagnostic::DuplicateJoin { client_id } },
        ],
        forall|i: int|
            0 <= i < message_commands(users, client_id, ClientMessageView::Join { name }).len()
                ==> delivered_message(
                #[trigger] message_commands(users, client_id, ClientMessageView::Join { name })[i],
            ) is None,
{
}

/// A join from an identifier that is not registered yet first sends the
/// joiner, and nobody else, an `InitClient` whose snapshot holds the joiner
/// under the name it gave.
pub proof fn joiner_is_in_its_own_snapshot(users: Registry, client_id: ClientId, name: Seq<char>)
    requires
        !users.contains_key(client_id),
    ensures
        message_commands(users, client_id, ClientMessageView::Join { name })[0]
            == (ServerCommandView::Send {
            client_id,
            channel: Channel::OrderedReliable,
            message: ServerMessageView::InitClient {
                client_id,
                usernames: users_after_message(
                    users,
                    client_id,
                    ClientMessageView::Join { name },
                ),
            },
        }),
        users_after_message(users, client_id, ClientMessageView::Join { name }).contains_key(
            client_id,
        ),
        users_after_message(users, client_id, ClientMessageView::Join { name })[client_id] == name,
{
}

/// Whether a command's recipients agree with the presence change it
/// carries: an `InitClient` goes to the connection it initialises and lists
/// that connection, a `ClientConnected` goes to the one that connected among
/// others, a `ClientDisconnected` does not go to the one that left.
pub open spec fn recipients_match_presence(command: ServerCommandView) -> bool {
    match command {
        ServerCommandView::Send {
            client_id: recipient,
            message: ServerMessageView::InitClient { client_id, usernames },
            ..
        } => recipient == client_id && usernames.contains_key(client_id),
        ServerCommandView::SendGroup {
            client_ids,
            message: ServerMessageView::ClientConnected { client_id, .. },
            ..
        } => client_ids.contains(client_id),
        ServerCommandView::SendGroup {
            client_ids,
            message: ServerMessageView::ClientDisconnected { client_id },
            ..
        } => !client_ids.contains(client_id),
        _ => true,
    }
}

/// Every command that one event calls for has recipients that match the
/// presence change it carries.
pub proof fn event_recipients_match_presence(users: Registry, event: ServerEventView)
    ensures
        forall|i: int|
            0 <= i < event_commands(users, event).len() ==> recipients_match_presence(
                #[trigger] event_commands(users, event)[i],
            ),
{
}

/// In any run of events, every `ClientConnected` is addressed to a set
/// that includes the joiner, every `ClientDisconnected` to a set that leaves
/// out the connection just removed, and every `InitClient` goes to the
/// connection it lists.
pub proof fn recipients_always_match_presence(users: Registry, events: Seq<ServerEventView>)
    ensures
        forall|i: int|
            0 <= i < events_commands(users, events).len() ==> recipients_match_presence(
                #[trigger] events_commands(users, events)[i],
            ),
    decreases events.len(),
{
    if events.len() > 0 {
        let earlier = events_commands(users, events.drop_last());
        let latest = event_commands(users_after_events(users, events.drop_last()), events.last());
        recipients_always_match_presence(users, events.drop_last());
        event_recipients_match_presence(
            users_after_events(users, events.drop_last()),
            events.last(),
        );
        assert forall|i: int| 0 <= i < events_commands(users, events).len() implies
            recipients_match_presence(#[trigger] events_commands(users, events)[i]) by {
            if i < earlier.len() {
                assert(events_commands(users, events)[i] == earlier[i]);
            } else {
                assert(events_commands(users, events)[i] == latest[i - earlier.len()]);
            }
        }
    }
}

/// Disconnecting a registered identifier twice announces its departure
/// once: the first call sends one `ClientDisconnected` to those that remain,
/// the second finds it gone, reports that, and changes nothing.
pub proof fn disconnect_twice_notifies_once(users: Registry, client_id: ClientId)
    requires
        users.contains_key(client_id),
    ensures
        disconnect_commands(users, client_id) == seq![
            ServerCommandView::SendGroup {
                client_ids: users.remove(client_id).dom(),
                channel: Channel::OrderedReliable,
                message: ServerMessageView::ClientDisconnected { client_id },
            },
        ],
        disconnect_commands(users_after_disconnect(users, client_id), client_id) == seq![
            ServerCommandView::Report { diagnostic: Diagnostic::UnknownDisconnect { client_id } },
        ],
        users_after_disconnect(users_after_disconnect(users, client_id), client_id)
            == users_after_disconnect(users, client_id),
{
    let once = users_after_disconnect(users, client_id);
    assert(users_after_disconnect(once, client_id) =~= once);
}

/// Whatever the registry held, a disconnect that follows a disconnect of
/// the same identifier is reported as unknown and changes nothing. This
/// holds of the shared path and of the explicit request alike.
pub proof fn repeated_disconnect_is_reported(users: Registry, client_id: ClientId)
    ensures
        ({
            let once = users_after_disconnect(users, client_id);
            &&& users_after_disconnect(once, client_id) == once
            &&& disconnect_commands(once, client_id) == seq![
                ServerCommandView::Report {
                    diagnostic: Diagnostic::UnknownDisconnect { client_id },
                },
            ]
            &&& users_after_message(once, client_id, ClientMessageView::Disconnect) == once
            &&& message_commands(once, client_id, ClientMessageView::Disconnect) == seq![
                ServerCommandView::DisconnectClient { client_id },
                ServerCommandView::Report {
                    diagnostic: Diagnostic::UnknownDisconnect { client_id },
                },
            ]
        }),
{
    let once = users_after_disconnect(users, client_id);
    assert(users_after_disconnect(once, client_id) =~= once);
    assert(message_commands(once, client_id, ClientMessageView::Disconnect) =~= seq![
        ServerCommandView::DisconnectClient { client_id },
        ServerCommandView::Report { diagnostic: Diagnostic::UnknownDisconnect { client_id } },
    ]);
}

/// Shutting a running server down addresses `ServerStopping` to the whole
/// registry as it stood, then stops the endpoint, and leaves the server off
/// with an empty registry.
pub proof fn shutdown_notifies_everyone_then_empties(server: InternalServerView)
    requires
        server.state == InternalServerState::Running,
    ensures
        signal_commands(server, LifecycleSignal::Shutdown) == seq![
            ServerCommandView::SendGroup {
                client_ids: server.users.dom(),
                channel: Channel::OrderedReliable,
                message: ServerMessageView::ServerStopping,
            },
            ServerCommandView::StopEndpoint,
        ],
        server_after_signal(server, LifecycleSignal::Shutdown) == (InternalServerView {
            state: InternalServerState::Off,
            users: Map::empty(),
        }),
{
}

/// Whether a server that is not running has an empty registry.
pub open spec fn idle_means_empty(server: InternalServerView) -> bool {
    server.state != InternalServerState::Running ==> server.users == Registry::empty()
}

/// No signal and no run of events can leave a server that is not running
/// with anyone registered: the dispatcher does not act before the server
/// runs, and the registry is emptied when it stops.
pub proof fn idle_server_stays_empty(
    server: InternalServerView,
    signal: LifecycleSignal,
    events: Seq<ServerEventView>,
)
    requires
        idle_means_empty(server),
    ensures
        idle_means_empty(server_after_signal(server, signal)),
        idle_means_empty(server_after_events(server, events)),
        server_after_events(server, events).state == server.state,
{
}

} // verus!
