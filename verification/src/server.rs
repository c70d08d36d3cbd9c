//! The server as its owner configures it: routes, default headers, static
//! directories, lifecycle hooks, and the one-time start.

use vstd::prelude::*;
use crate::capability::HandlerCapability;
use crate::headers::{HeaderMap, HeaderStore};
use crate::method::method_named;
use crate::path::pattern_fault;
use crate::route_table::{registered, segments_of, RouteView};
use crate::router::{hook_of, refusal, RegistrationError, Router, WebSocketHookSet};

verus! {

/// A directory served under a route prefix.
#[derive(Debug, PartialEq, Eq)]
pub struct Directory {
    /// The route prefix.
    pub route: String,
    /// The directory on disk.
    pub directory_path: String,
    /// The file served for the directory itself, if any.
    pub index_file: Option<String>,
    /// Whether a directory without an index file is shown as a listing.
    pub show_files_listing: bool,
}

/// A directory as contracts see it.
pub struct DirectoryView {
    pub route: Seq<char>,
    pub directory_path: Seq<char>,
    pub index_file: Option<Seq<char>>,
    pub show_files_listing: bool,
}

impl DeepView for Directory {
    type V = DirectoryView;

    open spec fn deep_view(&self) -> DirectoryView {
        DirectoryView {
            route: self.route@,
            directory_path: self.directory_path@,
            index_file: match self.index_file {
                Some(name) => Some(name@),
                None => None,
            },
            show_files_listing: self.show_files_listing,
        }
    }
}

/// How a directory is served.
#[derive(Clone, Copy, Debug, PartialEq, Eq, Structural)]
pub enum ServingMode {
    /// With its index file, and a redirect to the path with a slash.
    IndexFile,
    /// As a listing of its files, and a redirect to the path with a slash.
    Listing,
    /// File by file.
    Plain,
}

/// One thing to do when the server starts.
#[derive(Clone, Copy, Debug, PartialEq, Eq, Structural)]
pub enum LaunchStep {
    /// Run the startup hook to its end.
    RunStartup,
    /// Mount directory `index` in this mode.
    MountDirectory { index: usize, mode: ServingMode },
    /// Mount WebSocket route `index`.
    MountWebSocket { index: usize },
    /// Mount the service that routes every other request.
    MountDefault,
    /// Accept connections with this many workers.
    Listen { workers: usize },
}

/// The mode a directory is served in: with its index file where it has one,
/// else as a listing where that is asked for, else file by file.
pub open spec fn mode_of(directory: DirectoryView) -> ServingMode {
    if directory.index_file is Some {
        ServingMode::IndexFile
    } else if directory.show_files_listing {
        ServingMode::Listing
    } else {
        ServingMode::Plain
    }
}

/// What starting a server takes, in order: the startup hook where there is
/// one, each directory, each WebSocket route, the default service, and
/// last the listening.
pub open spec fn launch_plan(
    has_startup: bool,
    directories: Seq<DirectoryView>,
    web_sockets: nat,
    workers: usize,
) -> Seq<LaunchStep> {
    (if has_startup {
        seq![LaunchStep::RunStartup]
    } else {
        Seq::empty()
    }) + Seq::new(
        directories.len(),
        |i: int| LaunchStep::MountDirectory { index: i as usize, mode: mode_of(directories[i]) },
    ) + Seq::new(web_sockets, |i: int| LaunchStep::MountWebSocket { index: i as usize })
        + seq![LaunchStep::MountDefault, LaunchStep::Listen { workers }]
}

impl Directory {
    /// The mode this directory is served in.
    pub fn serving_mode(&self) -> (mode: ServingMode)
        ensures
            mode == mode_of(self.deep_view()),
    {
        if self.index_file.is_some() {
            ServingMode::IndexFile
        } else if self.show_files_listing {
            ServingMode::Listing
        } else {
            ServingMode::Plain
        }
    }
}

/// A server and what it was configured with.
pub struct Server<H> {
    router: Router<H>,
    headers: HeaderStore,
    directories: Vec<Directory>,
    startup_handler: Option<HandlerCapability<H>>,
    shutdown_handler: Option<HandlerCapability<H>>,
    running: bool,
}

impl<H> Server<H> {
    /// The handler registrations, in registration order.
    pub closed spec fn routes(&self) -> Seq<RouteView<HandlerCapability<H>>> {
        self.router.routes()
    }

    /// The WebSocket registrations, in registration order.
    pub closed spec fn web_socket_routes(&self) -> Seq<RouteView<WebSocketHookSet<H>>> {
        self.router.web_socket_routes()
    }

    /// The default headers.
    pub closed spec fn default_headers(&self) -> HeaderMap {
        self.headers@
    }

    /// The directories, in the order they were added.
    pub closed spec fn directories(&self) -> Seq<DirectoryView> {
        self.directories.deep_view()
    }

    /// The startup hook.
    pub closed spec fn startup(&self) -> Option<HandlerCapability<H>> {
        self.startup_handler
    }

    /// The shutdown hook.
    pub closed spec fn shutdown(&self) -> Option<HandlerCapability<H>> {
        self.shutdown_handler
    }

    /// Whether the server was started.
    pub closed spec fn running(&self) -> bool {
        self.running
    }

    /// The configuration that a change left alone.
    pub open spec fn same_but_routes(&self, other: &Self) -> bool {
        &&& self.default_headers() == other.default_headers()
        &&& self.directories() == other.directories()
        &&& self.startup() == other.startup()
        &&& self.shutdown() == other.shutdown()
        &&& self.running() == other.running()
    }

    /// A server with nothing registered, not started.
    pub fn new() -> (server: Self)
        ensures
            server.routes() == Seq::<RouteView<HandlerCapability<H>>>::empty(),
            server.web_socket_routes() == Seq::<RouteView<WebSocketHookSet<H>>>::empty(),
            server.default_headers() == HeaderMap::empty(),
            server.directories() == Seq::<DirectoryView>::empty(),
            server.startup() is None,
            server.shutdown() is None,
            !server.running(),
    {
        let server = Server {
            router: Router::new(),
            headers: HeaderStore::new(),
            directories: Vec::new(),
            startup_handler: None,
            shutdown_handler: None,
            running: false,
        };
        server
    }

    /// Starts the server, once. The first call marks it as running and says
    /// what starting takes; every later call changes nothing and returns
    /// `None`.
    pub fn start(&mut self, workers: usize) -> (plan: Option<Vec<LaunchStep>>)
        ensures
            final(self).running(),
            final(self).routes() == old(self).routes(),
            final(self).web_socket_routes() == old(self).web_socket_routes(),
            final(self).default_headers() == old(self).default_headers(),
            final(self).directories() == old(self).directories(),
            final(self).startup() == old(self).startup(),
            final(self).shutdown() == old(self).shutdown(),
            old(self).running() ==> plan is None,
            !old(self).running() ==> plan is Some && plan->0@ == launch_plan(
                old(self).startup() is Some,
                old(self).directories(),
                old(self).web_socket_routes().len(),
                workers,
            ),
    {
        if self.running {
            return None;
        }
        self.running = true;
        let ghost dirs = self.directories.deep_view();
        let mut plan: Vec<LaunchStep> = Vec::new();
        if self.startup_handler.is_some() {
            plan.push(LaunchStep::RunStartup);
        }
        let ghost head = plan@;
        let mut i: usize = 0;
        while i < self.directories.len()
            invariant
                dirs == self.directories.deep_view(),
                0 <= i <= self.directories.len(),
                plan@ == head + Seq::new(
                    i as nat,
                    |k: int|
                        LaunchStep::MountDirectory { index: k as usize, mode: mode_of(dirs[k]) },
                ),
            decreases self.directories.len() - i,
        {
            let mode = self.directories[i].serving_mode();
            plan.push(LaunchStep::MountDirectory { index: i, mode });
            i += 1;
        }
        let ghost mounted = plan@;
        let count = self.router.web_socket_route_count();
        let mut j: usize = 0;
        while j < count
            invariant
                0 <= j <= count,
                plan@ == mounted + Seq::new(
                    j as nat,
                    |k: int| LaunchStep::MountWebSocket { index: k as usize },
                ),
            decreases count - j,
        {
            plan.push(LaunchStep::MountWebSocket { index: j });
            j += 1;
        }
        plan.push(LaunchStep::MountDefault);
        plan.push(LaunchStep::Listen { workers });
        Some(plan)
    }

    /// Adds a directory to serve.
    pub fn add_directory(
        &mut self,
        route: String,
        directory_path: String,
        index_file: Option<String>,
        show_files_listing: bool,
    )
        ensures
            final(self).directories() == old(self).directories().push(
                (Directory { route, directory_path, index_file, show_files_listing }).deep_view(),
            ),
            final(self).routes() == old(self).routes(),
            final(self).web_socket_routes() == old(self).web_socket_routes(),
            final(self).default_headers() == old(self).default_headers(),
            final(self).startup() == old(self).startup(),
            final(self).shutdown() == old(self).shutdown(),
            final(self).running() == old(self).running(),
    {
        let directory = Directory { route, directory_path, index_file, show_files_listing };
        self.directories.push(directory);
    }

    /// Sets a default header. This can be done after the server has started.
    pub fn add_header(&mut self, key: &str, value: &str)
        ensures
            final(self).default_headers() == old(self).default_headers().insert(key@, value@),
            final(self).routes() == old(self).routes(),
            final(self).web_socket_routes() == old(self).web_socket_routes(),
            final(self).directories() == old(self).directories(),
            final(self).startup() == old(self).startup(),
            final(self).shutdown() == old(self).shutdown(),
            final(self).running() == old(self).running(),
    {
        self.headers.insert(key, value);
    }

    /// Takes a default header away. This can be done after the server has
    /// started.
    pub fn remove_header(&mut self, key: &str)
        ensures
            final(self).default_headers() == old(self).default_headers().remove(key@),
            final(self).routes() == old(self).routes(),
            final(self).web_socket_routes() == old(self).web_socket_routes(),
            final(self).directories() == old(self).directories(),
            final(self).startup() == old(self).startup(),
            final(self).shutdown() == old(self).shutdown(),
            final(self).running() == old(self).running(),
    {
        self.headers.remove(key);
    }

    /// Registers a handler under a method name and a pattern. This can be
    /// done after the server has started. An unknown method name or a faulty
    /// pattern is refused and changes nothing.
    pub fn add_route(
        &mut self,
        route_type: &str,
        route: &str,
        handler: H,
        is_async: bool,
        number_of_params: u8,
    ) -> (done: Result<(), RegistrationError>)
        ensures
            final(self).same_but_routes(old(self)),
            final(self).web_socket_routes() == old(self).web_socket_routes(),
            match (method_named(route_type@), pattern_fault(segments_of(route@))) {
                (None, _) => done == Err::<(), RegistrationError>(RegistrationError::UnknownMethod)
                    && final(self).routes() == old(self).routes(),
                (Some(_), Some(fault)) => done == Err::<(), RegistrationError>(refusal(fault))
                    && final(self).routes() == old(self).routes(),
                (Some(method), None) => done is Ok && final(self).routes() == registered(
                    old(self).routes(),
                    RouteView {
                        method: Some(method),
                        pattern: route@,
                        target: hook_of((handler, is_async, number_of_params)),
                    },
                ),
            },
    {
        self.router.add_route(route_type, route, handler, is_async, number_of_params)
    }

    /// Registers the hooks of a WebSocket route, each given as its callable,
    /// whether it is a coroutine, and its argument count. This can be done
    /// after the server has started. A faulty pattern is refused and changes
    /// nothing.
    pub fn add_web_socket_route(
        &mut self,
        route: &str,
        connect_route: (H, bool, u8),
        close_route: (H, bool, u8),
        message_route: (H, bool, u8),
    ) -> (done: Result<(), RegistrationError>)
        ensures
            final(self).same_but_routes(old(self)),
            final(self).routes() == old(self).routes(),
            match pattern_fault(segments_of(route@)) {
                Some(fault) => done == Err::<(), RegistrationError>(refusal(fault))
                    && final(self).web_socket_routes() == old(self).web_socket_routes(),
                None => done is Ok && final(self).web_socket_routes() == registered(
                    old(self).web_socket_routes(),
                    RouteView {
                        method: None,
                        pattern: route@,
                        target: WebSocketHookSet {
                            connect: hook_of(connect_route),
                            message: hook_of(message_route),
                            close: hook_of(close_route),
                        },
                    },
                ),
            },
    {
        self.router.add_websocket_route(route, connect_route, close_route, message_route)
    }

    /// Sets the startup hook, in the place of the one set before.
    pub fn add_startup_handler(&mut self, handler: H, is_async: bool)
        ensures
            final(self).startup() == Some(hook_of((handler, is_async, 0u8))),
            final(self).shutdown() == old(self).shutdown(),
            final(self).routes() == old(self).routes(),
            final(self).web_socket_routes() == old(self).web_socket_routes(),
            final(self).default_headers() == old(self).default_headers(),
            final(self).directories() == old(self).directories(),
            final(self).running() == old(self).running(),
    {
        self.startup_handler = Some(HandlerCapability::new(handler, is_async, 0));
    }

    /// Sets the shutdown hook, in the place of the one set before.
    pub fn add_shutdown_handler(&mut self, handler: H, is_async: bool)
        ensures
            final(self).shutdown() == Some(hook_of((handler, is_async, 0u8))),
            final(self).startup() == old(self).startup(),
            final(self).routes() == old(self).routes(),
            final(self).web_socket_routes() == old(self).web_socket_routes(),
            final(self).default_headers() == old(self).default_headers(),
            final(self).directories() == old(self).directories(),
            final(self).running() == old(self).running(),
    {
        self.shutdown_handler = Some(HandlerCapability::new(handler, is_async, 0));
    }

    /// The route tables.
    pub fn router(&self) -> (router: &Router<H>)
        ensures
            router.routes() == self.routes(),
            router.web_socket_routes() == self.web_socket_routes(),
    {
        &self.router
    }

    /// The default headers.
    pub fn headers(&self) -> (headers: &HeaderStore)
        ensures
            headers@ == self.default_headers(),
    {
        &self.headers
    }

    /// The directories, in the order they were added.
    pub fn directory_list(&self) -> (directories: &Vec<Directory>)
        ensures
            directories.deep_view() == self.directories(),
    {
        &self.directories
    }

    /// The startup hook.
    pub fn startup_handler(&self) -> (handler: Option<&HandlerCapability<H>>)
        ensures
            match self.startup() {
                None => handler is None,
                Some(h) => handler is Some && *handler->0 == h,
            },
    {
        self.startup_handler.as_ref()
    }

    /// The shutdown hook.
    pub fn shutdown_handler(&self) -> (handler: Option<&HandlerCapability<H>>)
        ensures
            match self.shutdown() {
                None => handler is None,
                Some(h) => handler is Some && *handler->0 == h,
            },
    {
        self.shutdown_handler.as_ref()
    }

    /// Whether the server was started.
    pub fn is_running(&self) -> (running: bool)
        ensures
            running == self.running(),
    {
        self.running
    }
}

impl<H> Default for Server<H> {
    /// A server with nothing registered, not started.
    fn default() -> (server: Self)
        ensures
            server.routes() == Seq::<RouteView<HandlerCapability<H>>>::empty(),
            server.web_socket_routes() == Seq::<RouteView<WebSocketHookSet<H>>>::empty(),
            server.default_headers() == HeaderMap::empty(),
            server.directories() == Seq::<DirectoryView>::empty(),
            server.startup() is None,
            server.shutdown() is None,
            !server.running(),
    {
        Server::new()
    }
}

/// Starting happens in order: the startup hook first where there is one,
/// then every directory in the order it was added, then every WebSocket
/// route, then the service that routes all other requests, and the
/// accepting of connections last.
pub proof fn lemma_launch_order(
    has_startup: bool,
    directories: Seq<DirectoryView>,
    web_sockets: nat,
    workers: usize,
)
    ensures
        ({
            let plan = launch_plan(has_startup, directories, web_sockets, workers);
            let first: int = if has_startup {
                1
            } else {
                0
            };
            &&& plan.len() == first + directories.len() + web_sockets + 2
            &&& has_startup ==> plan[0] == LaunchStep::RunStartup
            &&& forall|i: int|
                first <= i < first + directories.len() ==> #[trigger] plan[i] == (
                LaunchStep::MountDirectory {
                    index: (i - first) as usize,
                    mode: mode_of(directories[i - first]),
                })
            &&& forall|i: int|
                first + directories.len() <= i < first + directories.len() + web_sockets
                    ==> #[trigger] plan[i] == (LaunchStep::MountWebSocket {
                    index: (i - first - directories.len()) as usize,
                })
            &&& plan[plan.len() - 2] == LaunchStep::MountDefault
            &&& plan[plan.len() - 1] == LaunchStep::Listen { workers }
        }),
{
}

} // verus!
