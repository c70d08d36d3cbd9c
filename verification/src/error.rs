//! The ways a request or a connection can fail.

use vstd::prelude::*;

verus! {

/// A failure contained to one request or one connection.
#[derive(Clone, Copy, Debug, PartialEq, Eq, Structural)]
pub enum ServerError {
    /// The body grew past the ceiling.
    BodyOverflow,
    /// The transport failed while the body was read.
    PayloadError,
    /// The handler raised, or its coroutine failed.
    HandlerInvocationError,
    /// What the handler returned does not have the shape of a response.
    MalformedResponseShape,
    /// No route answers the request.
    RouteNotFound,
    /// The file named by a response could not be read.
    StaticFileReadError,
    /// A WebSocket frame was malformed.
    WebSocketProtocolError,
    /// The driver reported something that cannot happen in this state.
    UnexpectedEvent,
}

} // verus!
