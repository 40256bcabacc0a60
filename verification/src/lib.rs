//! Session management for a small multiplayer server: the registry of joined
//! connections, the dispatcher that turns client messages into registry
//! changes and outbound commands, and the server's lifecycle.
//!
//! The library never touches the network. Every decision is returned as a
//! list of [`command::ServerCommand`] values that the host hands to its
//! transport, and everything the transport observes comes back as a
//! [`dispatch::ServerEvent`].

pub mod command;
pub mod dispatch;
pub mod lifecycle;
pub mod model;
pub mod protocol;
pub mod registry;
pub mod theorems;
