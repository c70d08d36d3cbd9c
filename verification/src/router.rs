//! The two route tables of a server: handlers by method and pattern, and
//! WebSocket hook sets by pattern alone.

use vstd::prelude::*;
use crate::assoc::keys_unique;
use crate::capability::HandlerCapability;
use crate::method::{method_named, Method};
use crate::path::{pattern_fault, PatternError};
use crate::route_table::{
    registered, resolve, segments_of, well_formed, RouteMatch, RouteTable, RouteView,
};

verus! {

/// The three lifecycle hooks of a WebSocket route.
#[derive(Clone, Debug, PartialEq, Eq)]
pub struct WebSocketHookSet<H> {
    /// Called once when a connection opens.
    pub connect: HandlerCapability<H>,
    /// Called for each inbound text frame.
    pub message: HandlerCapability<H>,
    /// Called once when the connection closes.
    pub close: HandlerCapability<H>,
}

/// Why a registration was refused.
#[derive(Clone, Copy, Debug, PartialEq, Eq, Structural)]
pub enum RegistrationError {
    /// The method name denotes no method.
    UnknownMethod,
    /// The pattern has a parameter without a name.
    EmptyParameterName,
    /// The pattern names two parameters alike.
    DuplicateParameter,
}

/// The registration error that stands for a pattern fault.
pub open spec fn refusal(fault: PatternError) -> RegistrationError {
    match fault {
        PatternError::EmptyParameterName => RegistrationError::EmptyParameterName,
        PatternError::DuplicateParameter => RegistrationError::DuplicateParameter,
    }
}

fn refuse(fault: PatternError) -> (e: RegistrationError)
    ensures
        e == refusal(fault),
{
    match fault {
        PatternError::EmptyParameterName => RegistrationError::EmptyParameterName,
        PatternError::DuplicateParameter => RegistrationError::DuplicateParameter,
    }
}

/// A hook capability from the triple it is registered with: the callable,
/// whether it is a coroutine, and its argument count.
pub open spec fn hook_of<H>(hook: (H, bool, u8)) -> HandlerCapability<H> {
    if hook.1 {
        HandlerCapability::Cooperative(hook.0, hook.2)
    } else {
        HandlerCapability::Blocking(hook.0, hook.2)
    }
}

/// Handlers by method and pattern, and WebSocket hook sets by pattern.
pub struct Router<H> {
    routes: RouteTable<HandlerCapability<H>>,
    web_sockets: RouteTable<WebSocketHookSet<H>>,
}

impl<H> Router<H> {
    /// The handler registrations, in registration order.
    pub closed spec fn routes(&self) -> Seq<RouteView<HandlerCapability<H>>> {
        self.routes@
    }

    /// The WebSocket registrations, in registration order.
    pub closed spec fn web_socket_routes(&self) -> Seq<RouteView<WebSocketHookSet<H>>> {
        self.web_sockets@
    }

    /// A router without registrations.
    pub fn new() -> (router: Self)
        ensures
            router.routes() == Seq::<RouteView<HandlerCapability<H>>>::empty(),
            router.web_socket_routes() == Seq::<RouteView<WebSocketHookSet<H>>>::empty(),
    {
        Router { routes: RouteTable::new(), web_sockets: RouteTable::new() }
    }

    /// Registers a handler under a method name and a pattern. An unknown
    /// method name or a faulty pattern is refused and changes nothing; a
    /// second registration under the same method and pattern replaces the
    /// first.
    pub fn add_route(
        &mut self,
        route_type: &str,
        route: &str,
        handler: H,
        is_async: bool,
        number_of_params: u8,
    ) -> (done: Result<(), RegistrationError>)
        ensures
            final(self).web_socket_routes() == old(self).web_socket_routes(),
            match (method_named(route_type@), pattern_fault(segments_of(route@))) {
                (None, _) => done == Err::<(), RegistrationError>(RegistrationError::UnknownMethod)
                    && final(self).routes() == old(self).routes(),
                (Some(_), Some(fault)) => done == Err::<(), RegistrationError>(refusal(fault))
                    && final(self).routes() == old(self).routes(),
                (Some(method), None) => done is Ok && final(self).routes() == registered(
                    old(self).routes(),
                    RouteView {
                        method: Some(method),
                        pattern: route@,
                        target: hook_of((handler, is_async, number_of_params)),
                    },
                ),
            },
    {
        let method = match Method::from_name(route_type) {
            None => {
                return Err(RegistrationError::UnknownMethod);
            },
            Some(m) => m,
        };
        let capability = HandlerCapability::new(handler, is_async, number_of_params);
        match self.routes.register(Some(method), route, capability) {
            Ok(()) => Ok(()),
            Err(fault) => Err(refuse(fault)),
        }
    }

    /// Finds the handler for a method and a path, with the parameters that
    /// its pattern binds.
    pub fn get_route(&self, method: Method, path: &str) -> (found: Option<
        RouteMatch<'_, HandlerCapability<H>>,
    >)
        ensures
            match resolve(self.routes(), Some(method), path@) {
                None => found is None,
                Some(m) => found is Some && found->0@ == m && keys_unique(m.params),
            },
            well_formed(self.routes()),
    {
        self.routes.lookup(Some(method), path)
    }

    /// Registers the three hooks of a WebSocket route, each given as its
    /// callable, whether it is a coroutine, and its argument count. A faulty
    /// pattern is refused and changes nothing; a second registration under
    /// the same pattern replaces the first.
    pub fn add_websocket_route(
        &mut self,
        route: &str,
        connect_route: (H, bool, u8),
        close_route: (H, bool, u8),
        message_route: (H, bool, u8),
    ) -> (done: Result<(), RegistrationError>)
        ensures
            final(self).routes() == old(self).routes(),
            match pattern_fault(segments_of(route@)) {
                Some(fault) => done == Err::<(), RegistrationError>(refusal(fault))
                    && final(self).web_socket_routes() == old(self).web_socket_routes(),
                None => done is Ok && final(self).web_socket_routes() == registered(
                    old(self).web_socket_routes(),
                    RouteView {
                        method: None,
                        pattern: route@,
                        target: WebSocketHookSet {
                            connect: hook_of(connect_route),
                            message: hook_of(message_route),
                            close: hook_of(close_route),
                        },
                    },
                ),
            },
    {
        let hooks = WebSocketHookSet {
            connect: HandlerCapability::new(connect_route.0, connect_route.1, connect_route.2),
            message: HandlerCapability::new(message_route.0, message_route.1, message_route.2),
            close: HandlerCapability::new(close_route.0, close_route.1, close_route.2),
        };
        match self.web_sockets.register(None, route, hooks) {
            Ok(()) => Ok(()),
            Err(fault) => Err(refuse(fault)),
        }
    }

    /// Finds the hook set for a path.
    pub fn get_web_socket_route(&self, path: &str) -> (found: Option<
        RouteMatch<'_, WebSocketHookSet<H>>,
    >)
        ensures
            match resolve(self.web_socket_routes(), None, path@) {
                None => found is None,
                Some(m) => found is Some && found->0@ == m && keys_unique(m.params),
            },
            well_formed(self.web_socket_routes()),
    {
        self.web_sockets.lookup(None, path)
    }

    /// The number of WebSocket registrations.
    pub fn web_socket_route_count(&self) -> (n: usize)
        ensures
            n == self.web_socket_routes().len(),
    {
        self.web_sockets.len()
    }

    /// The pattern of WebSocket registration `i`, as it was written, where
    /// there is such a registration.
    pub fn web_socket_pattern(&self, i: usize) -> (pattern: Option<&str>)
        ensures
            match pattern {
                Some(text) => i < self.web_socket_routes().len() && text@
                    == self.web_socket_routes()[i as int].pattern,
                None => i >= self.web_socket_routes().len(),
            },
    {
        self.web_sockets.pattern_at(i)
    }

    /// The hook set of WebSocket registration `i`, where there is such a
    /// registration.
    pub fn web_socket_hooks(&self, i: usize) -> (hooks: Option<&WebSocketHookSet<H>>)
        ensures
            match hooks {
                Some(set) => i < self.web_socket_routes().len() && *set
                    == self.web_socket_routes()[i as int].target,
                None => i >= self.web_socket_routes().len(),
            },
    {
        self.web_sockets.target_at(i)
    }
}

} // verus!
