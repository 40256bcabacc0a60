//! What the server asks of its transport, and what it reports about
//! messages it had to drop.

use crate::protocol::{ClientId, ServerMessage, ServerMessageView};
use vstd::prelude::*;

verus! {

/// The logical channel a message travels on. Presence, initialisation and
/// shutdown notices are delivered in order; chat is reliable but unordered.
#[derive(Debug, Clone, Copy, PartialEq, Eq, Structural)]
pub enum Channel {
    OrderedReliable,
    UnorderedReliable,
}

/// A recoverable condition met while serving. None of them stops the
/// server; the message concerned is dropped.
#[derive(Debug, Clone, Copy, PartialEq, Eq, Structural)]
pub enum Diagnostic {
    /// A join arrived from an identifier that is already registered.
    DuplicateJoin { client_id: ClientId },
    /// A disconnect or a connection loss named an identifier that is not
    /// registered.
    UnknownDisconnect { client_id: ClientId },
    /// The transport could not deliver a message to this identifier.
    DeliveryFailure { client_id: ClientId },
}

/// One instruction to the host, to be carried out in the order given.
#[derive(Debug, Clone, PartialEq, Eq)]
pub enum ServerCommand {
    /// Begin accepting connections on the socket address `address`, with
    /// a certificate issued for `server_hostname`.
    StartEndpoint { address: String, server_hostname: String },
    /// Stop accepting and serving connections.
    StopEndpoint,
    /// Terminate the connection of `client_id`.
    DisconnectClient { client_id: ClientId },
    /// Deliver `message` to one connection.
    Send { client_id: ClientId, channel: Channel, message: ServerMessage },
    /// Deliver `message` to every connection in `client_ids`.
    SendGroup { client_ids: Vec<ClientId>, channel: Channel, message: ServerMessage },
    /// Record a diagnostic.
    Report { diagnostic: Diagnostic },
}

/// What a [`ServerCommand`] asks for. The recipients of a group message
/// form a set: the order in which they are served carries no meaning.
pub enum ServerCommandView {
    StartEndpoint { address: Seq<char>, server_hostname: Seq<char> },
    StopEndpoint,
    DisconnectClient { client_id: ClientId },
    Send { client_id: ClientId, channel: Channel, message: ServerMessageView },
    SendGroup { client_ids: Set<ClientId>, channel: Channel, message: ServerMessageView },
    Report { diagnostic: Diagnostic },
}

impl View for ServerCommand {
    type V = ServerCommandView;

    open spec fn view(&self) -> ServerCommandView {
        match self {
            ServerCommand::StartEndpoint {
                address,
                server_hostname,
            } => ServerCommandView::StartEndpoint {
                address: address@,
                server_hostname: server_hostname@,
            },
            ServerCommand::StopEndpoint => ServerCommandView::StopEndpoint,
            ServerCommand::DisconnectClient { client_id } => ServerCommandView::DisconnectClient {
                client_id: *client_id,
            },
            ServerCommand::Send { client_id, channel, message } => ServerCommandView::Send {
                client_id: *client_id,
                channel: *channel,
                message: message@,
            },
            ServerCommand::SendGroup {
                client_ids,
                channel,
                message,
            } => ServerCommandView::SendGroup {
                client_ids: client_ids@.to_set(),
                channel: *channel,
                message: message@,
            },
            ServerCommand::Report { diagnostic } => ServerCommandView::Report {
                diagnostic: *diagnostic,
            },
        }
    }
}

impl ServerCommand {
    /// A group message names each recipient once, so that carrying the
    /// command out delivers the message once to each.
    pub open spec fn well_formed(&self) -> bool {
        match self {
            ServerCommand::SendGroup { client_ids, .. } => client_ids@.no_duplicates(),
            _ => true,
        }
    }
}

/// What a list of commands asks for, command by command.
pub open spec fn commands_view(commands: Seq<ServerCommand>) -> Seq<ServerCommandView> {
    commands.map_values(|command: ServerCommand| command@)
}

/// Every command of the list is well formed.
pub open spec fn commands_well_formed(commands: Seq<ServerCommand>) -> bool {
    forall|i: int| 0 <= i < commands.len() ==> (#[trigger] commands[i]).well_formed()
}

/// The view of two lists joined is the views joined.
pub proof fn lemma_commands_view_concat(first: Seq<ServerCommand>, second: Seq<ServerCommand>)
    ensures
        commands_view(first + second) == commands_view(first) + commands_view(second),
        commands_well_formed(first) && commands_well_formed(second) ==> commands_well_formed(
            first + second,
        ),
{
    assert(commands_view(first + second) =~= commands_view(first) + commands_view(second));
    if commands_well_formed(first) && commands_well_formed(second) {
        assert forall|i: int| 0 <= i < (first + second).len() implies (#[trigger] (first
            + second)[i]).well_formed() by {
            if i < first.len() {
                assert((first + second)[i] == first[i]);
            } else {
                assert((first + second)[i] == second[i - first.len()]);
            }
        }
    }
}

} // verus!
