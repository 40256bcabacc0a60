//! The server's lifecycle: when it listens, when the dispatcher may run,
//! and how it shuts down.

use crate::command::{
    commands_view, commands_well_formed, Channel, ServerCommand, ServerCommandView,
};
use crate::dispatch::{events_view, handle_events, ServerEvent};
use crate::model::{events_commands, users_after_events, ServerEventView};
use crate::protocol::{ServerMessage, ServerMessageView};
use crate::registry::{Registry, Users};
use vstd::prelude::*;

verus! {

/// The address on which the server accepts connections.
pub const LISTEN_ADDRESS: &'static str = "0.0.0.0:6006";

/// The host name for which the transport issues its certificate.
pub const SERVER_HOSTNAME: &'static str = "127.0.0.1";

/// Where the server stands in its lifecycle. Clients watch this to know
/// when to attempt a connection.
#[derive(Debug, Clone, Copy, PartialEq, Eq, Hash, Structural)]
pub enum InternalServerState {
    Off,
    Launching,
    Running,
}

impl Default for InternalServerState {
    fn default() -> (state: InternalServerState)
        ensures
            state == InternalServerState::Off,
    {
        InternalServerState::Off
    }
}

/// The commands that start the server's endpoint: it is to listen on the
/// fixed address.
pub open spec fn listen_commands() -> Seq<ServerCommandView> {
    seq![
        ServerCommandView::StartEndpoint {
            address: LISTEN_ADDRESS@,
            server_hostname: SERVER_HOSTNAME@,
        },
    ]
}

/// The commands of a shutdown: everyone registered is told that the server
/// is stopping, then the endpoint is stopped.
pub open spec fn exit_commands(users: Registry) -> Seq<ServerCommandView> {
    seq![
        ServerCommandView::SendGroup {
            client_ids: users.dom(),
            channel: Channel::OrderedReliable,
            message: ServerMessageView::ServerStopping,
        },
        ServerCommandView::StopEndpoint,
    ]
}

/// Starts the server's endpoint on the fixed listen configuration.
pub fn start_listening() -> (commands: Vec<ServerCommand>)
    ensures
        commands_view(commands@) == listen_commands(),
        commands_well_formed(commands@),
{
    let mut commands: Vec<ServerCommand> = Vec::new();
    commands.push(
        ServerCommand::StartEndpoint {
            address: LISTEN_ADDRESS.to_owned(),
            server_hostname: SERVER_HOSTNAME.to_owned(),
        },
    );
    assert(commands_view(commands@) =~= listen_commands());
    commands
}

/// Tells everyone registered that the server is stopping, then stops the
/// endpoint. The registry is read, not changed.
pub fn on_server_exit(users: &Users) -> (commands: Vec<ServerCommand>)
    ensures
        commands_view(commands@) == exit_commands(users@),
        commands_well_formed(commands@),
{
    let mut commands: Vec<ServerCommand> = Vec::new();
    commands.push(
        ServerCommand::SendGroup {
            client_ids: users.all_ids(),
            channel: Channel::OrderedReliable,
            message: ServerMessage::ServerStopping,
        },
    );
    commands.push(ServerCommand::StopEndpoint);
    assert(commands_view(commands@) =~= exit_commands(users@));
    commands
}

/// Empties the registry once the server has stopped.
pub fn clear_users(users: &mut Users)
    ensures
        final(users)@ == Registry::empty(),
{
    users.clear();
}

/// What the host tells the lifecycle.
#[derive(Debug, Clone, Copy, PartialEq, Eq, Structural)]
pub enum LifecycleSignal {
    /// The server is asked to start.
    Start,
    /// The transport has begun to listen.
    Listening,
    /// The host is shutting down.
    Shutdown,
}

/// The state that follows `state` on `signal`. Off starts launching,
/// launching becomes running once the transport listens, running goes back
/// to off on shutdown; any other signal leaves the state as it is.
pub open spec fn next_state(
    state: InternalServerState,
    signal: LifecycleSignal,
) -> InternalServerState {
    match (state, signal) {
        (InternalServerState::Off, LifecycleSignal::Start) => InternalServerState::Launching,
        (InternalServerState::Launching, LifecycleSignal::Listening) => InternalServerState::Running,
        (InternalServerState::Running, LifecycleSignal::Shutdown) => InternalServerState::Off,
        _ => state,
    }
}

impl InternalServerState {
    /// The state that follows this one on `signal`.
    pub fn next(self, signal: LifecycleSignal) -> (state: InternalServerState)
        ensures
            state == next_state(self, signal),
    {
        match (self, signal) {
            (InternalServerState::Off, LifecycleSignal::Start) => InternalServerState::Launching,
            (InternalServerState::Launching, LifecycleSignal::Listening) => {
                InternalServerState::Running
            },
            (InternalServerState::Running, LifecycleSignal::Shutdown) => InternalServerState::Off,
            _ => self,
        }
    }

    /// Whether the dispatcher may run.
    pub fn is_running(self) -> (running: bool)
        ensures
            running == (self == InternalServerState::Running),
    {
        match self {
            InternalServerState::Running => true,
            _ => false,
        }
    }
}

/// Marks a launching server as running, once the transport listens.
pub fn set_internal_server_ready(state: &mut InternalServerState)
    ensures
        *final(state) == next_state(*old(state), LifecycleSignal::Listening),
{
    *state = state.next(LifecycleSignal::Listening);
}

/// Shuts an always-on server down when the host has asked to exit:
/// everyone registered is told, the endpoint is stopped, and the registry
/// is emptied. Without such a request nothing happens.
pub fn handle_app_exit(users: &mut Users, exit_requested: bool) -> (commands: Vec<ServerCommand>)
    ensures
        final(users)@ == if exit_requested {
            Registry::empty()
        } else {
            old(users)@
        },
        commands_view(commands@) == if exit_requested {
            exit_commands(old(users)@)
        } else {
            Seq::<ServerCommandView>::empty()
        },
        commands_well_formed(commands@),
{
    if exit_requested {
        let commands = on_server_exit(users);
        clear_users(users);
        commands
    } else {
        Vec::new()
    }
}

/// A server with its lifecycle state and its registry, as a pair of plain
/// values.
pub struct InternalServerView {
    pub state: InternalServerState,
    pub users: Registry,
}

/// The server after `signal`. Leaving the running state empties the
/// registry.
pub open spec fn server_after_signal(
    server: InternalServerView,
    signal: LifecycleSignal,
) -> InternalServerView {
    InternalServerView {
        state: next_state(server.state, signal),
        users: if server.state == InternalServerState::Running && signal
            == LifecycleSignal::Shutdown {
            Map::empty()
        } else {
            server.users
        },
    }
}

/// The commands that `signal` calls for: starting the endpoint when an
/// idle server is started, the shutdown sequence when a running one is shut
/// down, nothing otherwise.
pub open spec fn signal_commands(server: InternalServerView, signal: LifecycleSignal) -> Seq<
    ServerCommandView,
> {
    match (server.state, signal) {
        (InternalServerState::Off, LifecycleSignal::Start) => listen_commands(),
        (InternalServerState::Running, LifecycleSignal::Shutdown) => exit_commands(server.users),
        _ => Seq::empty(),
    }
}

/// The server after a run of events: they reach the dispatcher only while
/// the server is running.
pub open spec fn server_after_events(
    server: InternalServerView,
    events: Seq<ServerEventView>,
) -> InternalServerView {
    if server.state == InternalServerState::Running {
        InternalServerView { state: server.state, users: users_after_events(server.users, events) }
    } else {
        server
    }
}

/// The commands for a run of events offered to the server.
pub open spec fn server_events_commands(
    server: InternalServerView,
    events: Seq<ServerEventView>,
) -> Seq<ServerCommandView> {
    if server.state == InternalServerState::Running {
        events_commands(server.users, events)
    } else {
        Seq::empty()
    }
}

/// A server that the host starts and stops: the registry together with
/// the lifecycle state that gates the dispatcher. While the server is not
/// running its registry is empty.
pub struct InternalServer {
    state: InternalServerState,
    users: Users,
}

impl View for InternalServer {
    type V = InternalServerView;

    closed spec fn view(&self) -> InternalServerView {
        InternalServerView { state: self.state, users: self.users@ }
    }
}

impl InternalServer {
    #[verifier::type_invariant]
    spec fn idle_means_empty(self) -> bool {
        self.state != InternalServerState::Running ==> self.users@ == Registry::empty()
    }

    /// A server that is off, with nobody registered.
    pub fn new() -> (server: InternalServer)
        ensures
            server@ == (InternalServerView {
                state: InternalServerState::Off,
                users: Map::empty(),
            }),
    {
        InternalServer { state: InternalServerState::Off, users: Users::new() }
    }

    /// The lifecycle state.
    pub fn state(&self) -> (state: InternalServerState)
        ensures
            state == self@.state,
    {
        self.state
    }

    /// The registry. It is empty unless the server is running.
    pub fn users(&self) -> (users: &Users)
        ensures
            users@ == self@.users,
            self@.state != InternalServerState::Running ==> users@ == Registry::empty(),
    {
        proof {
            use_type_invariant(self);
        }
        &self.users
    }

    /// Takes one step of the lifecycle and returns what the host has to do
    /// for it. A running server that is shut down has its shutdown notice
    /// addressed to the registry as it stood, and is left with an empty one.
    pub fn signal(&mut self, signal: LifecycleSignal) -> (commands: Vec<ServerCommand>)
        ensures
            final(self)@ == server_after_signal(old(self)@, signal),
            commands_view(commands@) == signal_commands(old(self)@, signal),
            commands_well_formed(commands@),
    {
        proof {
            use_type_invariant(&*self);
        }
        match (self.state, signal) {
            (InternalServerState::Off, LifecycleSignal::Start) => {
                self.state = InternalServerState::Launching;
                start_listening()
            },
            (InternalServerState::Launching, LifecycleSignal::Listening) => {
                self.state = InternalServerState::Running;
                Vec::new()
            },
            (InternalServerState::Running, LifecycleSignal::Shutdown) => {
                let commands = on_server_exit(&self.users);
                let mut users = Users::new();
                core::mem::swap(&mut self.users, &mut users);
                self.state = InternalServerState::Off;
                commands
            },
            _ => Vec::new(),
        }
    }

    /// Runs one dispatch cycle on the pending events if the server is
    /// running. Otherwise nothing changes and nothing is commanded.
    pub fn handle_events(&mut self, events: Vec<ServerEvent>) -> (commands: Vec<ServerCommand>)
        ensures
            final(self)@ == server_after_events(old(self)@, events_view(events@)),
            commands_view(commands@) == server_events_commands(old(self)@, events_view(events@)),
            commands_well_formed(commands@),
    {
        if self.state.is_running() {
            let mut users = Users::new();
            core::mem::swap(&mut self.users, &mut users);
            let commands = handle_events(&mut users, events);
            core::mem::swap(&mut self.users, &mut users);
            commands
        } else {
            Vec::new()
        }
    }
}

} // verus!
