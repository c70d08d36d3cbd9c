use netcore::bridge::{begin, execute_event_handler, invoke, BridgeAction, BridgeEvent, Invocation, Stage};
use netcore::capability::{CallShape, ExecutionSite, HandlerCapability};
use netcore::method::Method;
use netcore::router::RegistrationError;
use netcore::server::{Directory, LaunchStep, Server, ServingMode};

fn pair(k: &str, v: &str) -> (String, String) {
    (k.to_string(), v.to_string())
}

fn run(start: (Invocation, BridgeAction), events: &[BridgeEvent]) -> (Invocation, Vec<BridgeAction>) {
    let mut at = start.0;
    let mut actions = vec![start.1];
    for event in events {
        let next = at.advance(*event);
        at = next.0;
        actions.push(next.1);
    }
    (at, actions)
}

#[test]
fn blocking_capability_is_called_on_the_pool_under_the_lock() {
    let capability = HandlerCapability::Blocking((), 1);
    let (at, actions) = run(
        invoke(&capability),
        &[
            BridgeEvent::PoolStarted,
            BridgeEvent::LockAcquired,
            BridgeEvent::CallReturned { ok: true },
            BridgeEvent::LockReleased,
        ],
    );
    assert_eq!(
        actions,
        vec![
            BridgeAction::SubmitToPool,
            BridgeAction::AcquireLock,
            BridgeAction::Call(CallShape::SingleArgument),
            BridgeAction::ReleaseLock,
            BridgeAction::Deliver { ok: true },
        ]
    );
    assert!(at.is_done());
    assert_eq!(at.site, ExecutionSite::OffloadPool);
}

#[test]
fn cooperative_capability_is_scheduled_then_awaited_without_the_lock() {
    let capability = HandlerCapability::Cooperative((), 0);
    let (at, actions) = run(
        invoke(&capability),
        &[
            BridgeEvent::LockAcquired,
            BridgeEvent::Scheduled { ok: true },
            BridgeEvent::LockReleased,
            BridgeEvent::Joined { ok: true },
        ],
    );
    assert_eq!(
        actions,
        vec![
            BridgeAction::AcquireLock,
            BridgeAction::Schedule(CallShape::NoArgument),
            BridgeAction::ReleaseLock,
            BridgeAction::AwaitJoin,
            BridgeAction::Deliver { ok: true },
        ]
    );
    assert!(at.is_done());
}

#[test]
fn failures_release_the_lock_before_they_are_delivered() {
    let (at, actions) = run(
        begin(ExecutionSite::OffloadPool, CallShape::NoArgument),
        &[
            BridgeEvent::PoolStarted,
            BridgeEvent::LockAcquired,
            BridgeEvent::CallReturned { ok: false },
            BridgeEvent::LockReleased,
        ],
    );
    assert_eq!(actions[3], BridgeAction::ReleaseLock);
    assert_eq!(actions[4], BridgeAction::Deliver { ok: false });
    assert!(at.is_done());
    let (at, actions) = run(
        begin(ExecutionSite::LoopThread, CallShape::SingleArgument),
        &[BridgeEvent::LockAcquired, BridgeEvent::Scheduled { ok: false }, BridgeEvent::LockReleased],
    );
    assert_eq!(actions[2], BridgeAction::ReleaseLock);
    assert_eq!(actions[3], BridgeAction::Deliver { ok: false });
    assert!(at.is_done());
    let (at, actions) = run(
        begin(ExecutionSite::LoopThread, CallShape::SingleArgument),
        &[
            BridgeEvent::LockAcquired,
            BridgeEvent::Scheduled { ok: true },
            BridgeEvent::LockReleased,
            BridgeEvent::Joined { ok: false },
        ],
    );
    assert_eq!(actions[4], BridgeAction::Deliver { ok: false });
    assert!(at.is_done());
}

#[test]
fn events_out_of_turn_change_nothing() {
    let start = begin(ExecutionSite::OffloadPool, CallShape::NoArgument);
    for event in [
        BridgeEvent::LockAcquired,
        BridgeEvent::CallReturned { ok: true },
        BridgeEvent::Scheduled { ok: true },
        BridgeEvent::LockReleased,
        BridgeEvent::Joined { ok: true },
    ] {
        assert_eq!(start.0.advance(event), (start.0, BridgeAction::Nothing));
    }
    let done = Invocation { site: ExecutionSite::LoopThread, shape: CallShape::NoArgument, stage: Stage::Done };
    assert_eq!(done.advance(BridgeEvent::LockAcquired), (done, BridgeAction::Nothing));
    let calling = Invocation { site: ExecutionSite::OffloadPool, shape: CallShape::NoArgument, stage: Stage::Calling };
    assert_eq!(calling.advance(BridgeEvent::LockAcquired), (calling, BridgeAction::Nothing));
    assert_eq!(calling.advance(BridgeEvent::Scheduled { ok: true }), (calling, BridgeAction::Nothing));
}

#[test]
fn lifecycle_hooks_are_called_without_an_argument() {
    assert_eq!(execute_event_handler::<()>(None), None);
    let blocking = HandlerCapability::Blocking((), 3);
    assert_eq!(
        execute_event_handler(Some(&blocking)),
        Some(begin(ExecutionSite::OffloadPool, CallShape::NoArgument))
    );
    let cooperative = HandlerCapability::Cooperative((), 1);
    let start = execute_event_handler(Some(&cooperative)).unwrap();
    assert_eq!(start.1, BridgeAction::AcquireLock);
    let (_, action) = start.0.advance(BridgeEvent::LockAcquired);
    assert_eq!(action, BridgeAction::Schedule(CallShape::NoArgument));
}

#[test]
fn directory_modes_follow_index_then_listing() {
    let directory = |index: Option<&str>, listing: bool| Directory {
        route: "/static".to_string(),
        directory_path: "./build".to_string(),
        index_file: index.map(|s| s.to_string()),
        show_files_listing: listing,
    };
    assert_eq!(directory(Some("index.html"), false).serving_mode(), ServingMode::IndexFile);
    assert_eq!(directory(Some("index.html"), true).serving_mode(), ServingMode::IndexFile);
    assert_eq!(directory(None, true).serving_mode(), ServingMode::Listing);
    assert_eq!(directory(None, false).serving_mode(), ServingMode::Plain);
}

#[test]
fn new_server_is_empty_and_not_running() {
    let server: Server<u32> = Server::new();
    assert!(!server.is_running());
    assert!(server.startup_handler().is_none());
    assert!(server.shutdown_handler().is_none());
    assert!(server.directory_list().is_empty());
    assert_eq!(server.headers().snapshot(), vec![]);
    assert!(server.router().get_route(Method::Get, "/").is_none());
    assert_eq!(server.router().web_socket_route_count(), 0);
}

#[test]
fn default_server_is_a_new_server() {
    let mut server: Server<u32> = Default::default();
    assert!(!server.is_running());
    assert!(server.directory_list().is_empty());
    assert_eq!(server.start(3), Some(vec![LaunchStep::MountDefault, LaunchStep::Listen { workers: 3 }]));
}

#[test]
fn server_starts_once() {
    let mut server: Server<u32> = Server::new();
    let plan = server.start(4);
    assert_eq!(plan, Some(vec![LaunchStep::MountDefault, LaunchStep::Listen { workers: 4 }]));
    assert!(server.is_running());
    assert_eq!(server.start(4), None);
    assert_eq!(server.start(8), None);
    assert!(server.is_running());
}

#[test]
fn launch_plan_mounts_in_order_and_listens_last() {
    let mut server: Server<u32> = Server::new();
    server.add_startup_handler(1, true);
    server.add_shutdown_handler(2, false);
    server.add_directory("/a".to_string(), "./a".to_string(), Some("index.html".to_string()), false);
    server.add_directory("/b".to_string(), "./b".to_string(), None, true);
    server.add_directory("/c".to_string(), "./c".to_string(), None, false);
    server.add_web_socket_route("/ws", (3, false, 1), (4, false, 1), (5, false, 1)).unwrap();
    server.add_web_socket_route("/chat/:room", (6, true, 1), (7, true, 1), (8, true, 1)).unwrap();
    server.add_route("GET", "/", 9, false, 0).unwrap();
    let plan = server.start(2).unwrap();
    assert_eq!(
        plan,
        vec![
            LaunchStep::RunStartup,
            LaunchStep::MountDirectory { index: 0, mode: ServingMode::IndexFile },
            LaunchStep::MountDirectory { index: 1, mode: ServingMode::Listing },
            LaunchStep::MountDirectory { index: 2, mode: ServingMode::Plain },
            LaunchStep::MountWebSocket { index: 0 },
            LaunchStep::MountWebSocket { index: 1 },
            LaunchStep::MountDefault,
            LaunchStep::Listen { workers: 2 },
        ]
    );
    assert_eq!(server.directory_list()[1].route, "/b");
    assert_eq!(server.router().web_socket_pattern(1), Some("/chat/:room"));
    assert_eq!(server.startup_handler(), Some(&HandlerCapability::Cooperative(1, 0)));
    assert_eq!(server.shutdown_handler(), Some(&HandlerCapability::Blocking(2, 0)));
}

#[test]
fn server_can_be_changed_after_it_started() {
    let mut server: Server<u32> = Server::new();
    server.start(1).unwrap();
    server.add_header("Server", "core");
    server.add_header("X", "1");
    server.remove_header("X");
    server.add_route("GET", "/late/:id", 1, false, 1).unwrap();
    assert_eq!(server.headers().snapshot(), vec![pair("Server", "core")]);
    let found = server.router().get_route(Method::Get, "/late/7").unwrap();
    assert_eq!(found.params, vec![pair("id", "7")]);
    assert!(server.is_running());
}

#[test]
fn server_refuses_what_the_router_refuses() {
    let mut server: Server<u32> = Server::new();
    assert_eq!(server.add_route("NOPE", "/", 1, false, 0), Err(RegistrationError::UnknownMethod));
    assert_eq!(server.add_route("GET", "/:", 1, false, 0), Err(RegistrationError::EmptyParameterName));
    assert_eq!(
        server.add_web_socket_route("/:x/:x", (1, false, 0), (2, false, 0), (3, false, 0)),
        Err(RegistrationError::DuplicateParameter)
    );
    assert_eq!(server.router().web_socket_route_count(), 0);
    assert!(server.router().get_route(Method::Get, "/a").is_none());
}

#[test]
fn later_lifecycle_hook_replaces_earlier() {
    let mut server: Server<u32> = Server::new();
    server.add_startup_handler(1, false);
    server.add_startup_handler(2, true);
    assert_eq!(server.startup_handler(), Some(&HandlerCapability::Cooperative(2, 0)));
    assert!(server.shutdown_handler().is_none());
    assert_eq!(server.start(1).unwrap()[0], LaunchStep::RunStartup);
}
