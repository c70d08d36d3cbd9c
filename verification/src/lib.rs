//! Routing, request admission, dispatch decisions and connection state for a
//! server whose handlers live in an embedded single-threaded runtime.
//!
//! Nothing here reads a socket, calls a handler or opens a file. Those stay
//! with the caller, which performs the actions this crate asks for and
//! reports back what happened.

pub mod error;
pub mod text;
pub mod assoc;
pub mod method;
pub mod capability;
pub mod path;
pub mod route_table;
pub mod route_laws;
pub mod router;
pub mod query;
pub mod body;
pub mod request;
pub mod response;
pub mod status;
pub mod headers;
pub mod executors;
pub mod execution_laws;
pub mod processor;
pub mod bridge;
pub mod web_socket_connection;
pub mod socket_laws;
pub mod server;
