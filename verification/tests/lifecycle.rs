use session_server::command::{Channel, Diagnostic, ServerCommand};
use session_server::dispatch::ServerEvent;
use session_server::lifecycle::{
    clear_users, handle_app_exit, on_server_exit, set_internal_server_ready, start_listening,
    InternalServer, InternalServerState, LifecycleSignal, LISTEN_ADDRESS, SERVER_HOSTNAME,
};
use session_server::protocol::{ClientId, ClientMessage, ServerMessage};
use session_server::registry::Users;

const OFF: InternalServerState = InternalServerState::Off;
const LAUNCHING: InternalServerState = InternalServerState::Launching;
const RUNNING: InternalServerState = InternalServerState::Running;
const START: LifecycleSignal = LifecycleSignal::Start;
const LISTENING: LifecycleSignal = LifecycleSignal::Listening;
const SHUTDOWN: LifecycleSignal = LifecycleSignal::Shutdown;

fn start_endpoint() -> ServerCommand {
    ServerCommand::StartEndpoint {
        address: "0.0.0.0:6006".to_string(),
        server_hostname: "127.0.0.1".to_string(),
    }
}

fn stopping(to: &[ClientId]) -> ServerCommand {
    ServerCommand::SendGroup {
        client_ids: to.to_vec(),
        channel: Channel::OrderedReliable,
        message: ServerMessage::ServerStopping,
    }
}

fn sort_recipients(commands: &mut Vec<ServerCommand>) {
    for command in commands.iter_mut() {
        if let ServerCommand::SendGroup { client_ids, .. } = command {
            client_ids.sort();
        }
    }
}

fn join(client_id: ClientId, name: &str) -> ServerEvent {
    ServerEvent::Message { client_id, message: ClientMessage::Join { name: name.to_string() } }
}

fn lost(client_id: ClientId) -> ServerEvent {
    ServerEvent::ConnectionLost { client_id }
}

fn running_server_with(names: &[(ClientId, &str)]) -> InternalServer {
    let mut server = InternalServer::new();
    server.signal(LifecycleSignal::Start);
    server.signal(LifecycleSignal::Listening);
    let joins = names.iter().map(|(id, name)| join(*id, name)).collect();
    server.handle_events(joins);
    server
}

#[test]
fn listen_configuration_is_fixed() {
    assert_eq!(LISTEN_ADDRESS, "0.0.0.0:6006");
    assert_eq!(SERVER_HOSTNAME, "127.0.0.1");
}

#[test]
fn default_state_is_off() {
    assert_eq!(InternalServerState::default(), InternalServerState::Off);
    assert_eq!(InternalServer::new().state(), InternalServerState::Off);
    assert!(InternalServer::new().users().is_empty());
}

#[test]
fn legal_transitions() {
    assert_eq!(OFF.next(START), LAUNCHING);
    assert_eq!(LAUNCHING.next(LISTENING), RUNNING);
    assert_eq!(RUNNING.next(SHUTDOWN), OFF);
}

#[test]
fn other_signals_leave_the_state_alone() {
    assert_eq!(OFF.next(LISTENING), OFF);
    assert_eq!(OFF.next(SHUTDOWN), OFF);
    assert_eq!(LAUNCHING.next(START), LAUNCHING);
    assert_eq!(LAUNCHING.next(SHUTDOWN), LAUNCHING);
    assert_eq!(RUNNING.next(START), RUNNING);
    assert_eq!(RUNNING.next(LISTENING), RUNNING);
}

#[test]
fn only_running_is_running() {
    assert!(!InternalServerState::Off.is_running());
    assert!(!InternalServerState::Launching.is_running());
    assert!(InternalServerState::Running.is_running());
}

#[test]
fn ready_moves_launching_to_running_only() {
    let mut state = InternalServerState::Launching;
    set_internal_server_ready(&mut state);
    assert_eq!(state, InternalServerState::Running);
    let mut state = InternalServerState::Off;
    set_internal_server_ready(&mut state);
    assert_eq!(state, InternalServerState::Off);
    let mut state = InternalServerState::Running;
    set_internal_server_ready(&mut state);
    assert_eq!(state, InternalServerState::Running);
}

#[test]
fn start_listening_starts_the_endpoint() {
    assert_eq!(start_listening(), vec![start_endpoint()]);
}

#[test]
fn start_then_listening_brings_the_server_up() {
    let mut server = InternalServer::new();
    assert_eq!(server.signal(LifecycleSignal::Start), vec![start_endpoint()]);
    assert_eq!(server.state(), InternalServerState::Launching);
    assert_eq!(server.signal(LifecycleSignal::Listening), Vec::new());
    assert_eq!(server.state(), InternalServerState::Running);
}

#[test]
fn dispatcher_does_not_run_before_the_server_runs() {
    let mut server = InternalServer::new();
    assert_eq!(server.handle_events(vec![join(1, "alice")]), Vec::new());
    assert_eq!(server.handle_events(vec![lost(1)]), Vec::new());
    server.signal(LifecycleSignal::Start);
    assert_eq!(server.handle_events(vec![join(1, "alice")]), Vec::new());
    assert_eq!(server.handle_events(vec![lost(1)]), Vec::new());
    assert!(server.users().is_empty());
    assert_eq!(server.state(), InternalServerState::Launching);
}

#[test]
fn running_server_dispatches() {
    let mut server = running_server_with(&[(1, "alice"), (2, "bob")]);
    assert_eq!(server.users().len(), 2);
    let mut commands = server.handle_events(vec![lost(2), lost(2)]);
    sort_recipients(&mut commands);
    assert_eq!(
        commands,
        vec![
            ServerCommand::SendGroup {
                client_ids: vec![1],
                channel: Channel::OrderedReliable,
                message: ServerMessage::ClientDisconnected { client_id: 2 },
            },
            ServerCommand::Report { diagnostic: Diagnostic::UnknownDisconnect { client_id: 2 } },
        ]
    );
    assert_eq!(server.users().all_ids(), vec![1]);
}

#[test]
fn shutdown_tells_everyone_then_stops_then_forgets() {
    let mut server = running_server_with(&[(1, "alice"), (2, "bob"), (3, "carol")]);
    let mut commands = server.signal(LifecycleSignal::Shutdown);
    sort_recipients(&mut commands);
    assert_eq!(commands, vec![stopping(&[1, 2, 3]), ServerCommand::StopEndpoint]);
    assert_eq!(server.state(), InternalServerState::Off);
    assert!(server.users().is_empty());
}

#[test]
fn shutdown_with_nobody_registered_still_stops() {
    let mut server = running_server_with(&[]);
    assert_eq!(
        server.signal(LifecycleSignal::Shutdown),
        vec![stopping(&[]), ServerCommand::StopEndpoint]
    );
    assert_eq!(server.state(), InternalServerState::Off);
}

#[test]
fn shutdown_of_a_server_that_is_not_running_does_nothing() {
    let mut server = InternalServer::new();
    assert_eq!(server.signal(LifecycleSignal::Shutdown), Vec::new());
    assert_eq!(server.state(), InternalServerState::Off);
    server.signal(LifecycleSignal::Start);
    assert_eq!(server.signal(LifecycleSignal::Shutdown), Vec::new());
    assert_eq!(server.state(), InternalServerState::Launching);
}

#[test]
fn start_of_a_running_server_does_nothing() {
    let mut server = running_server_with(&[(1, "alice")]);
    assert_eq!(server.signal(LifecycleSignal::Start), Vec::new());
    assert_eq!(server.signal(LifecycleSignal::Listening), Vec::new());
    assert_eq!(server.state(), InternalServerState::Running);
    assert_eq!(server.users().len(), 1);
}

#[test]
fn server_can_be_started_again_after_shutdown() {
    let mut server = running_server_with(&[(1, "alice")]);
    server.signal(LifecycleSignal::Shutdown);
    assert_eq!(server.signal(LifecycleSignal::Start), vec![start_endpoint()]);
    server.signal(LifecycleSignal::Listening);
    assert_eq!(server.state(), InternalServerState::Running);
    assert!(server.users().is_empty());
}

#[test]
fn on_server_exit_reads_the_registry_without_changing_it() {
    let mut users = Users::new();
    users.insert(5, "eve".to_string()).unwrap();
    assert_eq!(on_server_exit(&users), vec![stopping(&[5]), ServerCommand::StopEndpoint]);
    assert_eq!(users.len(), 1);
    clear_users(&mut users);
    assert!(users.is_empty());
}

#[test]
fn app_exit_runs_the_shutdown_sequence() {
    let mut users = Users::new();
    users.insert(1, "alice".to_string()).unwrap();
    users.insert(2, "bob".to_string()).unwrap();
    let mut commands = handle_app_exit(&mut users, true);
    sort_recipients(&mut commands);
    assert_eq!(commands, vec![stopping(&[1, 2]), ServerCommand::StopEndpoint]);
    assert!(users.is_empty());
}

#[test]
fn no_exit_request_changes_nothing() {
    let mut users = Users::new();
    users.insert(1, "alice".to_string()).unwrap();
    assert_eq!(handle_app_exit(&mut users, false), Vec::new());
    assert_eq!(users.len(), 1);
}

#[test]
fn dispatch_cycle_is_gated_like_the_rest() {
    let events = || vec![join(1, "alice"), ServerEvent::DeliveryFailed { client_id: 1 }];
    let mut server = InternalServer::new();
    assert_eq!(server.handle_events(events()), Vec::new());
    assert!(server.users().is_empty());
    server.signal(LifecycleSignal::Start);
    server.signal(LifecycleSignal::Listening);
    let commands = server.handle_events(events());
    assert_eq!(commands.len(), 3);
    assert_eq!(
        commands[2],
        ServerCommand::Report { diagnostic: Diagnostic::DeliveryFailure { client_id: 1 } }
    );
    assert_eq!(server.users().get(1), Some(&"alice".to_string()));
}
