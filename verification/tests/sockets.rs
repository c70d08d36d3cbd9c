use netcore::capability::{ExecutionSite, HandlerCapability};
use netcore::web_socket_connection::{
    execute_ws_function, start_web_socket, ConnectionState, Hook, Outbound, SocketAction,
    SocketEvent, WebSocketConnection,
};

fn quiet() -> SocketAction {
    SocketAction { invoke: None, send: None, shut: false }
}

fn call(hook: Hook) -> SocketAction {
    SocketAction { invoke: Some(hook), send: None, shut: false }
}

fn send(frame: Outbound) -> SocketAction {
    SocketAction { invoke: None, send: Some(frame), shut: false }
}

fn drive(connection: &mut WebSocketConnection, events: &[SocketEvent]) -> Vec<Hook> {
    events.iter().filter_map(|event| connection.handle(*event).invoke).collect()
}

#[test]
fn connection_opens_with_connect() {
    let mut connection = WebSocketConnection::new("abc".to_string(), false);
    assert_eq!(connection.current_state(), ConnectionState::Connecting);
    assert_eq!(connection.connection_id(), "abc");
    assert_eq!(connection.started(), call(Hook::Connect));
    assert_eq!(connection.current_state(), ConnectionState::Open);
    assert_eq!(connection.started(), quiet());
    assert_eq!(connection.current_state(), ConnectionState::Open);
}

#[test]
fn frames_before_the_upgrade_are_ignored() {
    for event in [
        SocketEvent::Text,
        SocketEvent::Binary,
        SocketEvent::Ping,
        SocketEvent::Pong,
        SocketEvent::HookReturned { with_text: true },
    ] {
        let mut connection = WebSocketConnection::new("abc".to_string(), true);
        assert_eq!(connection.handle(event), quiet());
        assert_eq!(connection.current_state(), ConnectionState::Connecting);
    }
}

#[test]
fn connection_lost_before_it_opened_calls_no_hook() {
    for event in [SocketEvent::Close, SocketEvent::Stopped] {
        let mut connection = WebSocketConnection::new("abc".to_string(), false);
        assert_eq!(connection.handle(event), quiet());
        assert_eq!(connection.current_state(), ConnectionState::Closed);
        assert_eq!(connection.started(), quiet());
        assert_eq!(connection.current_state(), ConnectionState::Closed);
    }
    let mut connection = WebSocketConnection::new("abc".to_string(), false);
    assert_eq!(connection.handle(SocketEvent::ProtocolError), SocketAction { invoke: None, send: None, shut: true });
    assert_eq!(connection.current_state(), ConnectionState::Closed);
}

#[test]
fn open_connection_answers_each_frame() {
    let mut connection = WebSocketConnection::new("abc".to_string(), false);
    connection.started();
    assert_eq!(connection.handle(SocketEvent::Text), call(Hook::Message));
    assert_eq!(connection.handle(SocketEvent::Binary), send(Outbound::EchoBinary));
    assert_eq!(connection.handle(SocketEvent::Ping), send(Outbound::Pong));
    assert_eq!(connection.handle(SocketEvent::Pong), send(Outbound::Pong));
    assert_eq!(connection.handle(SocketEvent::HookReturned { with_text: true }), send(Outbound::HookText));
    assert_eq!(connection.handle(SocketEvent::HookReturned { with_text: false }), quiet());
    assert_eq!(connection.current_state(), ConnectionState::Open);
}

#[test]
fn ping_probes_connect_only_where_set_up() {
    let mut probing = WebSocketConnection::new("abc".to_string(), true);
    probing.started();
    assert_eq!(
        probing.handle(SocketEvent::Ping),
        SocketAction { invoke: Some(Hook::Connect), send: Some(Outbound::Pong), shut: false }
    );
    let mut plain = WebSocketConnection::new("abc".to_string(), false);
    plain.started();
    assert_eq!(plain.handle(SocketEvent::Ping), send(Outbound::Pong));
}

#[test]
fn close_is_called_once_and_nothing_after() {
    for closing in [SocketEvent::Close, SocketEvent::Stopped] {
        let mut connection = WebSocketConnection::new("abc".to_string(), true);
        connection.started();
        assert_eq!(connection.handle(closing), call(Hook::Close));
        assert_eq!(connection.current_state(), ConnectionState::Closed);
        for later in [
            SocketEvent::Started,
            SocketEvent::Text,
            SocketEvent::Binary,
            SocketEvent::Ping,
            SocketEvent::Pong,
            SocketEvent::Close,
            SocketEvent::ProtocolError,
            SocketEvent::Stopped,
            SocketEvent::HookReturned { with_text: true },
        ] {
            assert_eq!(connection.handle(later), quiet());
            assert_eq!(connection.current_state(), ConnectionState::Closed);
        }
    }
    let mut connection = WebSocketConnection::new("abc".to_string(), false);
    connection.started();
    assert_eq!(connection.stopped(), call(Hook::Close));
    assert_eq!(connection.stopped(), quiet());
}

#[test]
fn malformed_frame_closes_the_connection() {
    let mut connection = WebSocketConnection::new("abc".to_string(), false);
    connection.started();
    assert_eq!(
        connection.handle(SocketEvent::ProtocolError),
        SocketAction { invoke: Some(Hook::Close), send: None, shut: true }
    );
    assert_eq!(connection.current_state(), ConnectionState::Closed);
}

#[test]
fn hooks_run_connect_then_messages_then_close() {
    let mut connection = WebSocketConnection::new("abc".to_string(), false);
    let hooks = drive(
        &mut connection,
        &[
            SocketEvent::Text,
            SocketEvent::Started,
            SocketEvent::Text,
            SocketEvent::Ping,
            SocketEvent::Binary,
            SocketEvent::Text,
            SocketEvent::HookReturned { with_text: true },
            SocketEvent::Text,
            SocketEvent::Close,
            SocketEvent::Text,
            SocketEvent::Stopped,
        ],
    );
    assert_eq!(hooks, vec![Hook::Connect, Hook::Message, Hook::Message, Hook::Message, Hook::Close]);
}

#[test]
fn probing_ping_calls_connect_in_the_middle() {
    let mut connection = WebSocketConnection::new("abc".to_string(), true);
    let hooks = drive(
        &mut connection,
        &[SocketEvent::Started, SocketEvent::Text, SocketEvent::Ping, SocketEvent::Stopped],
    );
    assert_eq!(hooks, vec![Hook::Connect, Hook::Message, Hook::Connect, Hook::Close]);
}

#[test]
fn hook_gets_the_connection_id_unless_it_takes_nothing() {
    let connection = WebSocketConnection::new("conn-1".to_string(), false);
    let none = execute_ws_function(&HandlerCapability::Blocking((), 0), &connection);
    assert_eq!(none.site, ExecutionSite::OffloadPool);
    assert_eq!(none.argument, None);
    let one = execute_ws_function(&HandlerCapability::Cooperative((), 1), &connection);
    assert_eq!(one.site, ExecutionSite::LoopThread);
    assert_eq!(one.argument, Some("conn-1".to_string()));
    let many = execute_ws_function(&HandlerCapability::Blocking((), 2), &connection);
    assert_eq!(many.argument, Some("conn-1".to_string()));
}

#[test]
fn fresh_connection_has_a_version_4_id() {
    let connection = start_web_socket(true);
    assert_eq!(connection.current_state(), ConnectionState::Connecting);
    let id: Vec<char> = connection.connection_id().chars().collect();
    assert_eq!(id.len(), 36);
    for (i, c) in id.iter().enumerate() {
        if i == 8 || i == 13 || i == 18 || i == 23 {
            assert_eq!(*c, '-');
        } else {
            assert!(matches!(*c, '0'..='9' | 'a'..='f'));
        }
    }
    assert_eq!(id[14], '4');
    assert!(matches!(id[19], '8' | '9' | 'a' | 'b'));
}

#[test]
fn fresh_connections_have_ids_of_their_own() {
    let first = start_web_socket(false);
    let second = start_web_socket(false);
    assert_ne!(first.connection_id(), second.connection_id());
}
