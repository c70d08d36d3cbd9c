use netcore::capability::HandlerCapability;
use netcore::error::ServerError;
use netcore::executors::{execute_http_function, ExecutionAction, ExecutionEvent, Reply};
use netcore::headers::HeaderStore;
use netcore::method::Method;
use netcore::processor::{
    apply_headers, handle_middleware_request, handle_request, index, Response, Routed,
    FAILURE_STATUS, NOT_FOUND_STATUS,
};
use netcore::request::{normalize, ParsedRequest};
use netcore::router::Router;
use netcore::status::status_from_text;

fn pair(k: &str, v: &str) -> (String, String) {
    (k.to_string(), v.to_string())
}

fn sorted(mut pairs: Vec<(String, String)>) -> Vec<(String, String)> {
    pairs.sort();
    pairs
}

fn reply(status: &str, body: &[u8]) -> Result<Reply, ServerError> {
    Ok(Reply::Response { status_code: status.to_string(), body: body.to_vec() })
}

#[test]
fn status_text_is_three_digits_from_100_to_999() {
    assert_eq!(status_from_text("200"), Some(200));
    assert_eq!(status_from_text("404"), Some(404));
    assert_eq!(status_from_text("100"), Some(100));
    assert_eq!(status_from_text("999"), Some(999));
    assert_eq!(status_from_text("099"), None);
    assert_eq!(status_from_text("000"), None);
    assert_eq!(status_from_text("20"), None);
    assert_eq!(status_from_text("2000"), None);
    assert_eq!(status_from_text(""), None);
    assert_eq!(status_from_text("2o0"), None);
    assert_eq!(status_from_text(" 20"), None);
    assert_eq!(status_from_text("+20"), None);
    assert_eq!(status_from_text("2.0"), None);
}

#[test]
fn status_text_of_other_scripts_is_refused() {
    assert_eq!(status_from_text("٢٠٠"), None);
    assert_eq!(status_from_text("é1"), None);
    assert_eq!(status_from_text("２００"), None);
}

#[test]
fn header_store_sets_replaces_and_removes() {
    let mut store = HeaderStore::new();
    assert_eq!(store.snapshot(), vec![]);
    store.insert("Server", "a");
    store.insert("X-Frame-Options", "deny");
    assert_eq!(sorted(store.snapshot()), vec![pair("Server", "a"), pair("X-Frame-Options", "deny")]);
    store.insert("Server", "b");
    assert_eq!(sorted(store.snapshot()), vec![pair("Server", "b"), pair("X-Frame-Options", "deny")]);
    store.remove("X-Frame-Options");
    store.remove("absent");
    assert_eq!(store.snapshot(), vec![pair("Server", "b")]);
    store.insert("server", "lower");
    assert_eq!(sorted(store.snapshot()), vec![pair("Server", "b"), pair("server", "lower")]);
}

#[test]
fn apply_headers_replaces_by_name_and_keeps_the_rest() {
    let mut store = HeaderStore::new();
    store.insert("a", "new");
    store.insert("b", "2");
    let mut response = Response {
        status: 201,
        headers: vec![pair("keep", "k"), pair("a", "old")],
        body: vec![1, 2],
    };
    apply_headers(&mut response, &store);
    assert_eq!(response.status, 201);
    assert_eq!(response.body, vec![1, 2]);
    assert_eq!(response.headers.len(), 3);
    assert_eq!(response.headers[0], pair("keep", "k"));
    assert_eq!(response.headers[1], pair("a", "new"));
    assert_eq!(response.headers[2], pair("b", "2"));
}

#[test]
fn reply_goes_out_with_its_status_and_body() {
    let store = HeaderStore::new();
    let response = handle_request(reply("404", b"gone"), &store);
    assert_eq!(response, Response { status: 404, headers: vec![], body: b"gone".to_vec() });
    let response = handle_request(reply("200", b""), &store);
    assert_eq!(response, Response { status: 200, headers: vec![], body: vec![] });
}

#[test]
fn failures_go_out_as_empty_500_with_default_headers() {
    let mut store = HeaderStore::new();
    store.insert("Server", "core");
    for error in [
        ServerError::BodyOverflow,
        ServerError::PayloadError,
        ServerError::HandlerInvocationError,
        ServerError::MalformedResponseShape,
        ServerError::StaticFileReadError,
        ServerError::WebSocketProtocolError,
        ServerError::UnexpectedEvent,
    ] {
        let response = handle_request(Err(error), &store);
        assert_eq!(response.status, FAILURE_STATUS);
        assert_eq!(response.status, 500);
        assert_eq!(response.body, Vec::<u8>::new());
        assert_eq!(response.headers, vec![pair("Server", "core")]);
    }
}

#[test]
fn unreadable_status_is_a_500_without_the_body() {
    let mut store = HeaderStore::new();
    store.insert("Server", "core");
    for status in ["", "abc", "20", "099", "1000"] {
        let response = handle_request(reply(status, b"secret"), &store);
        assert_eq!(response.status, 500);
        assert_eq!(response.body, Vec::<u8>::new());
        assert_eq!(response.headers, vec![pair("Server", "core")]);
    }
    let response = handle_request(Ok(Reply::Fragments(vec![vec![pair("a", "b")]])), &store);
    assert_eq!(response.status, 500);
    assert_eq!(response.body, Vec::<u8>::new());
}

#[test]
fn missing_route_goes_out_as_empty_response_with_default_headers() {
    let mut store = HeaderStore::new();
    store.insert("Server", "core");
    let response = handle_request(Err(ServerError::RouteNotFound), &store);
    assert_eq!(response.status, NOT_FOUND_STATUS);
    assert_eq!(response.status, 200);
    assert_eq!(response.body, Vec::<u8>::new());
    assert_eq!(response.headers, vec![pair("Server", "core")]);
}

#[test]
fn headers_set_before_assembly_appear_and_later_ones_do_not() {
    let mut store = HeaderStore::new();
    store.insert("early", "1");
    let response = handle_request(reply("200", b"x"), &store);
    store.insert("late", "2");
    store.insert("early", "changed");
    assert_eq!(response.headers, vec![pair("early", "1")]);
    let next = handle_request(reply("200", b"x"), &store);
    assert_eq!(sorted(next.headers), vec![pair("early", "changed"), pair("late", "2")]);
    store.remove("early");
    let last = handle_request(Err(ServerError::HandlerInvocationError), &store);
    assert_eq!(last.headers, vec![pair("late", "2")]);
}

#[test]
fn middleware_failure_contributes_no_fragments() {
    let fragments = vec![vec![pair("a", "1")], vec![pair("b", "2"), pair("c", "3")]];
    assert_eq!(handle_middleware_request(Ok(Reply::Fragments(fragments.clone()))), fragments);
    assert_eq!(handle_middleware_request(Err(ServerError::HandlerInvocationError)), Vec::<Vec<(String, String)>>::new());
    assert_eq!(handle_middleware_request(Err(ServerError::BodyOverflow)), Vec::<Vec<(String, String)>>::new());
    assert_eq!(handle_middleware_request(reply("200", b"x")), Vec::<Vec<(String, String)>>::new());
}

#[test]
fn index_routes_or_answers_not_found() {
    let mut router: Router<u32> = Router::new();
    router.add_route("GET", "/users/:id", 5, true, 1).unwrap();
    let mut store = HeaderStore::new();
    store.insert("Server", "core");
    match index(&router, &store, Method::Get, "/users/42", "verbose&page=2") {
        Routed::Found { capability, params, queries } => {
            assert_eq!(*capability, HandlerCapability::Cooperative(5, 1));
            assert_eq!(params, vec![pair("id", "42")]);
            assert_eq!(queries, vec![pair("verbose", ""), pair("page", "2")]);
        }
        Routed::NotFound(_) => panic!("route was registered"),
    }
    match index(&router, &store, Method::Post, "/users/42", "") {
        Routed::Found { .. } => panic!("no route under this method"),
        Routed::NotFound(response) => {
            assert_eq!(response, Response { status: 200, headers: vec![pair("Server", "core")], body: vec![] });
        }
    }
}

fn echo_id(request: &ParsedRequest) -> Vec<(String, String)> {
    let id = request.params.iter().find(|p| p.0 == "id").map(|p| p.1.clone()).unwrap();
    vec![pair("status_code", "200"), pair("body", &id)]
}

fn serve(
    router: &Router<fn(&ParsedRequest) -> Vec<(String, String)>>,
    store: &HeaderStore,
    method: Method,
    path: &str,
    chunks: Vec<Vec<u8>>,
    calls: &mut usize,
) -> Response {
    let (capability, params) = match index(router, store, method, path, "") {
        Routed::NotFound(response) => return response,
        Routed::Found { capability, params, .. } => (capability, params),
    };
    let mut pending = chunks.into_iter();
    let mut params = Some(params);
    let (mut state, mut action) = execute_http_function(method, 10_000);
    loop {
        let event = match action {
            ExecutionAction::ReadChunk => match pending.next() {
                Some(chunk) => ExecutionEvent::Chunk(chunk),
                None => ExecutionEvent::EndOfBody,
            },
            ExecutionAction::Invoke { body } => {
                *calls += 1;
                let request = normalize(method, params.take().unwrap(), "", vec![], body);
                ExecutionEvent::Returned((capability.handler())(&request))
            }
            ExecutionAction::ReadFile { .. } => ExecutionEvent::FileFailed,
            ExecutionAction::Finish(outcome) => return handle_request(outcome, store),
            ExecutionAction::Nothing => panic!("execution went on after its end"),
        };
        let next = state.advance(event);
        state = next.0;
        action = next.1;
    }
}

#[test]
fn get_users_42_answers_200_with_body_42() {
    let mut router: Router<fn(&ParsedRequest) -> Vec<(String, String)>> = Router::new();
    router.add_route("GET", "/users/:id", echo_id, false, 1).unwrap();
    let store = HeaderStore::new();
    let mut calls = 0;
    let response = serve(&router, &store, Method::Get, "/users/42", vec![], &mut calls);
    assert_eq!(response.status, 200);
    assert_eq!(response.body, b"42".to_vec());
    assert_eq!(calls, 1);
}

#[test]
fn put_of_10001_bytes_never_reaches_the_handler() {
    let mut router: Router<fn(&ParsedRequest) -> Vec<(String, String)>> = Router::new();
    router.add_route("PUT", "/users/:id", echo_id, false, 1).unwrap();
    let mut store = HeaderStore::new();
    store.insert("Server", "core");
    let mut calls = 0;
    let response = serve(&router, &store, Method::Put, "/users/1", vec![vec![0; 10_001]], &mut calls);
    assert_eq!(calls, 0);
    assert_eq!(response, Response { status: 500, headers: vec![pair("Server", "core")], body: vec![] });
    let response = serve(&router, &store, Method::Put, "/users/1", vec![vec![0; 10_000]], &mut calls);
    assert_eq!(calls, 1);
    assert_eq!(response.status, 200);
    assert_eq!(response.body, b"1".to_vec());
}
