//! Messages exchanged between clients and the server, and their
//! mathematical views.

use std::collections::HashMap;
use vstd::prelude::*;

verus! {

/// Handle that the transport assigns to each active connection.
pub type ClientId = u64;

/// Messages sent from clients to the server.
#[derive(Debug, Clone, PartialEq, Eq)]
pub enum ClientMessage {
    Join { name: String },
    Disconnect {  },
    ChatMessage { message: String },
}

/// What a [`ClientMessage`] says, with strings as character sequences.
pub enum ClientMessageView {
    Join { name: Seq<char> },
    Disconnect,
    ChatMessage { message: Seq<char> },
}

impl View for ClientMessage {
    type V = ClientMessageView;

    open spec fn view(&self) -> ClientMessageView {
        match self {
            ClientMessage::Join { name } => ClientMessageView::Join { name: name@ },
            ClientMessage::Disconnect {  } => ClientMessageView::Disconnect,
            ClientMessage::ChatMessage { message } => ClientMessageView::ChatMessage {
                message: message@,
            },
        }
    }
}

/// Messages sent from the server to clients.
#[derive(Debug, Clone, PartialEq, Eq)]
pub enum ServerMessage {
    ClientConnected { client_id: ClientId, username: String },
    ClientDisconnected { client_id: ClientId },
    ChatMessage { client_id: ClientId, message: String },
    InitClient { client_id: ClientId, usernames: HashMap<ClientId, String> },
    ServerStopping,
}

/// What a [`ServerMessage`] says: names as character sequences, the
/// snapshot of an `InitClient` as a map from identifier to name.
pub enum ServerMessageView {
    ClientConnected { client_id: ClientId, username: Seq<char> },
    ClientDisconnected { client_id: ClientId },
    ChatMessage { client_id: ClientId, message: Seq<char> },
    InitClient { client_id: ClientId, usernames: Map<ClientId, Seq<char>> },
    ServerStopping,
}

/// The names held by a hash map, as a map from identifier to characters.
pub open spec fn names_view(names: HashMap<ClientId, String>) -> Map<ClientId, Seq<char>> {
    names@.map_values(|name: String| name@)
}

impl View for ServerMessage {
    type V = ServerMessageView;

    open spec fn view(&self) -> ServerMessageView {
        match self {
            ServerMessage::ClientConnected { client_id, username } => {
                ServerMessageView::ClientConnected { client_id: *client_id, username: username@ }
            },
            ServerMessage::ClientDisconnected { client_id } => {
                ServerMessageView::ClientDisconnected { client_id: *client_id }
            },
            ServerMessage::ChatMessage { client_id, message } => {
                ServerMessageView::ChatMessage { client_id: *client_id, message: message@ }
            },
            ServerMessage::InitClient { client_id, usernames } => {
                ServerMessageView::InitClient {
                    client_id: *client_id,
                    usernames: names_view(*usernames),
                }
            },
            ServerMessage::ServerStopping => ServerMessageView::ServerStopping,
        }
    }
}

} // verus!
