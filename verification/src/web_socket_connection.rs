//! One WebSocket connection as a state machine: which hook each event calls,
//! what goes back to the peer, and when the connection is over.

use vstd::prelude::*;
use crate::capability::{ExecutionSite, HandlerCapability};

verus! {

/// Where a connection stands.
#[derive(Clone, Copy, Debug, PartialEq, Eq, Structural)]
pub enum ConnectionState {
    /// The upgrade has not completed.
    Connecting,
    /// Frames flow.
    Open,
    /// The connection is over.
    Closed,
}

/// A lifecycle hook.
#[derive(Clone, Copy, Debug, PartialEq, Eq, Structural)]
pub enum Hook {
    Connect,
    Message,
    Close,
}

/// What happened on a connection.
#[derive(Clone, Copy, Debug, PartialEq, Eq, Structural)]
pub enum SocketEvent {
    /// The upgrade completed.
    Started,
    /// A text frame arrived.
    Text,
    /// A binary frame arrived.
    Binary,
    /// A ping arrived.
    Ping,
    /// A pong arrived.
    Pong,
    /// The peer sent a close frame.
    Close,
    /// A malformed frame arrived.
    ProtocolError,
    /// The transport went away.
    Stopped,
    /// A hook returned, with a text or without one.
    HookReturned { with_text: bool },
}

/// What goes back to the peer.
#[derive(Clone, Copy, Debug, PartialEq, Eq, Structural)]
pub enum Outbound {
    /// The binary frame that arrived, as it is.
    EchoBinary,
    /// A pong with the payload that arrived.
    Pong,
    /// The text that the hook returned, as a text frame.
    HookText,
}

/// What is to be done about an event.
#[derive(Clone, Copy, Debug, PartialEq, Eq, Structural)]
pub struct SocketAction {
    /// The hook to call, if any.
    pub invoke: Option<Hook>,
    /// The frame to send, if any.
    pub send: Option<Outbound>,
    /// Whether to close the transport.
    pub shut: bool,
}

/// Nothing is to be done.
pub open spec fn idle() -> SocketAction {
    SocketAction { invoke: None, send: None, shut: false }
}

/// One step of a connection.
///
/// The upgrade opens the connection and calls `connect`. On an open
/// connection a text frame calls `message`; a binary frame is echoed; a
/// ping is answered by a pong, and calls `connect` again where the
/// connection was set up to probe on ping; a pong is answered by a pong; the
/// text a hook returns is sent. A close frame, a malformed frame or the loss
/// of the transport closes the connection and calls `close`; a malformed
/// frame also has the transport closed. A connection that goes away before
/// it opened closes without a hook. A closed connection does nothing.
pub open spec fn socket_step(state: ConnectionState, probe_on_ping: bool, event: SocketEvent) -> (
    ConnectionState,
    SocketAction,
) {
    match state {
        ConnectionState::Closed => (ConnectionState::Closed, idle()),
        ConnectionState::Connecting => match event {
            SocketEvent::Started => (
                ConnectionState::Open,
                SocketAction { invoke: Some(Hook::Connect), send: None, shut: false },
            ),
            SocketEvent::Close | SocketEvent::Stopped => (ConnectionState::Closed, idle()),
            SocketEvent::ProtocolError => (
                ConnectionState::Closed,
                SocketAction { invoke: None, send: None, shut: true },
            ),
            _ => (ConnectionState::Connecting, idle()),
        },
        ConnectionState::Open => match event {
            SocketEvent::Started => (ConnectionState::Open, idle()),
            SocketEvent::Text => (
                ConnectionState::Open,
                SocketAction { invoke: Some(Hook::Message), send: None, shut: false },
            ),
            SocketEvent::Binary => (
                ConnectionState::Open,
                SocketAction { invoke: None, send: Some(Outbound::EchoBinary), shut: false },
            ),
            SocketEvent::Ping => (
                ConnectionState::Open,
                SocketAction {
                    invoke: if probe_on_ping {
                        Some(Hook::Connect)
                    } else {
                        None
                    },
                    send: Some(Outbound::Pong),
                    shut: false,
                },
            ),
            SocketEvent::Pong => (
                ConnectionState::Open,
                SocketAction { invoke: None, send: Some(Outbound::Pong), shut: false },
            ),
            SocketEvent::HookReturned { with_text } => (
                ConnectionState::Open,
                SocketAction {
                    invoke: None,
                    send: if with_text {
                        Some(Outbound::HookText)
                    } else {
                        None
                    },
                    shut: false,
                },
            ),
            SocketEvent::Close | SocketEvent::Stopped => (
                ConnectionState::Closed,
                SocketAction { invoke: Some(Hook::Close), send: None, shut: false },
            ),
            SocketEvent::ProtocolError => (
                ConnectionState::Closed,
                SocketAction { invoke: Some(Hook::Close), send: None, shut: true },
            ),
        },
    }
}

/// The digits `0` to `9` and the letters `a` to `f`.
pub open spec fn is_lower_hex(c: char) -> bool {
    48 <= c as u32 <= 57 || 97 <= c as u32 <= 102
}

/// The shape of a connection id: 36 characters in five groups of lower-case
/// hexadecimal digits with a hyphen between groups, the third group starting
/// with `4` and the fourth with `8`, `9`, `a` or `b`.
pub open spec fn is_connection_id(id: Seq<char>) -> bool {
    &&& id.len() == 36
    &&& forall|i: int|
        0 <= i < 36 ==> if i == 8 || i == 13 || i == 18 || i == 23 {
            id[i] == '-'
        } else {
            is_lower_hex(#[trigger] id[i])
        }
    &&& id[14] == '4'
    &&& (id[19] == '8' || id[19] == '9' || id[19] == 'a' || id[19] == 'b')
}

/// `Uuid::new_v4` followed by `to_string`: a random version-4 identifier in
/// its hyphenated lower-case form. Nothing is claimed of which one; every
/// one has the shape stated. The call panics where the system has no random
/// bytes to give.
#[verifier::external_body]
fn fresh_id() -> (id: String)
    ensures
        is_connection_id(id@),
{
    uuid::Uuid::new_v4().to_string()
}

/// How a hook is to be called.
#[derive(Debug, PartialEq, Eq)]
pub struct HookCall {
    /// Where the hook runs.
    pub site: ExecutionSite,
    /// The connection id, for a hook that takes an argument.
    pub argument: Option<String>,
}

/// One accepted WebSocket connection.
pub struct WebSocketConnection {
    id: String,
    state: ConnectionState,
    probe_on_ping: bool,
}

impl WebSocketConnection {
    /// The id that hooks are given to tell connections apart.
    pub closed spec fn id(&self) -> Seq<char> {
        self.id@
    }

    /// Where the connection stands.
    pub closed spec fn state(&self) -> ConnectionState {
        self.state
    }

    /// Whether a ping calls `connect` again.
    pub closed spec fn probes(&self) -> bool {
        self.probe_on_ping
    }

    /// A connection with this id that has not opened yet.
    pub fn new(id: String, probe_on_ping: bool) -> (connection: Self)
        ensures
            connection.id() == id@,
            connection.state() == ConnectionState::Connecting,
            connection.probes() == probe_on_ping,
    {
        WebSocketConnection { id, state: ConnectionState::Connecting, probe_on_ping }
    }

    /// The id that hooks are given to tell connections apart.
    pub fn connection_id(&self) -> (id: &str)
        ensures
            id@ == self.id(),
    {
        self.id.as_str()
    }

    /// Where the connection stands.
    pub fn current_state(&self) -> (state: ConnectionState)
        ensures
            state == self.state(),
    {
        self.state
    }

    /// Takes an event and says what is to be done about it.
    pub fn handle(&mut self, event: SocketEvent) -> (action: SocketAction)
        ensures
            (final(self).state(), action) == socket_step(old(self).state(), old(self).probes(), event),
            final(self).id() == old(self).id(),
            final(self).probes() == old(self).probes(),
    {
        let quiet = SocketAction { invoke: None, send: None, shut: false };
        match self.state {
            ConnectionState::Closed => quiet,
            ConnectionState::Connecting => match event {
                SocketEvent::Started => {
                    self.state = ConnectionState::Open;
                    SocketAction { invoke: Some(Hook::Connect), send: None, shut: false }
                },
                SocketEvent::Close | SocketEvent::Stopped => {
                    self.state = ConnectionState::Closed;
                    quiet
                },
                SocketEvent::ProtocolError => {
                    self.state = ConnectionState::Closed;
                    SocketAction { invoke: None, send: None, shut: true }
                },
                _ => quiet,
            },
            ConnectionState::Open => match event {
                SocketEvent::Started => quiet,
                SocketEvent::Text => SocketAction {
                    invoke: Some(Hook::Message),
                    send: None,
                    shut: false,
                },
                SocketEvent::Binary => SocketAction {
                    invoke: None,
                    send: Some(Outbound::EchoBinary),
                    shut: false,
                },
                SocketEvent::Ping => SocketAction {
                    invoke: if self.probe_on_ping {
                        Some(Hook::Connect)
                    } else {
                        None
                    },
                    send: Some(Outbound::Pong),
                    shut: false,
                },
                SocketEvent::Pong => SocketAction {
                    invoke: None,
                    send: Some(Outbound::Pong),
                    shut: false,
                },
                SocketEvent::HookReturned { with_text } => SocketAction {
                    invoke: None,
                    send: if with_text {
                        Some(Outbound::HookText)
                    } else {
                        None
                    },
                    shut: false,
                },
                SocketEvent::Close | SocketEvent::Stopped => {
                    self.state = ConnectionState::Closed;
                    SocketAction { invoke: Some(Hook::Close), send: None, shut: false }
                },
                SocketEvent::ProtocolError => {
                    self.state = ConnectionState::Closed;
                    SocketAction { invoke: Some(Hook::Close), send: None, shut: true }
                },
            },
        }
    }

    /// The upgrade completed.
    pub fn started(&mut self) -> (action: SocketAction)
        ensures
            (final(self).state(), action) == socket_step(
                old(self).state(),
                old(self).probes(),
                SocketEvent::Started,
            ),
            final(self).id() == old(self).id(),
            final(self).probes() == old(self).probes(),
    {
        self.handle(SocketEvent::Started)
    }

    /// The transport went away.
    pub fn stopped(&mut self) -> (action: SocketAction)
        ensures
            (final(self).state(), action) == socket_step(
                old(self).state(),
                old(self).probes(),
                SocketEvent::Stopped,
            ),
            final(self).id() == old(self).id(),
            final(self).probes() == old(self).probes(),
    {
        self.handle(SocketEvent::Stopped)
    }
}

/// The argument that a hook is called with: the connection id where the
/// hook takes arguments, nothing where it takes none.
pub open spec fn hook_argument(arity: u8, id: Seq<char>) -> Option<Seq<char>> {
    if arity == 0 {
        None
    } else {
        Some(id)
    }
}

/// Says how a hook is to be called for a connection: where it runs, and
/// with the connection id as its argument unless it takes none.
pub fn execute_ws_function<H>(function: &HandlerCapability<H>, connection: &WebSocketConnection) -> (call:
    HookCall)
    ensures
        call.site == function.site(),
        match hook_argument(function.arity(), connection.id()) {
            None => call.argument is None,
            Some(id) => call.argument is Some && call.argument->0@ == id,
        },
{
    let argument = if function.number_of_params() == 0 {
        None
    } else {
        Some(connection.id.clone())
    };
    HookCall { site: function.execution_site(), argument }
}

/// Sets up the connection for an upgrade that was accepted, under an id of
/// its own.
pub fn start_web_socket(probe_on_ping: bool) -> (connection: WebSocketConnection)
    ensures
        is_connection_id(connection.id()),
        connection.state() == ConnectionState::Connecting,
        connection.probes() == probe_on_ping,
{
    WebSocketConnection::new(fresh_id(), probe_on_ping)
}

} // verus!
