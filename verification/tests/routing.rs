use netcore::capability::{CallShape, ExecutionSite, HandlerCapability};
use netcore::method::Method;
use netcore::path::{
    check_pattern, is_more_specific, match_pattern, segment_is_param, segment_param_name,
    PatternError,
};
use netcore::route_table::RouteTable;
use netcore::router::{RegistrationError, Router};
use netcore::text::{chars_of, find_char, same_text, split_on};

fn pair(k: &str, v: &str) -> (String, String) {
    (k.to_string(), v.to_string())
}

fn strings(items: &[&str]) -> Vec<String> {
    items.iter().map(|s| s.to_string()).collect()
}

#[test]
fn split_keeps_empty_pieces() {
    assert_eq!(split_on("/users/42", '/'), strings(&["", "users", "42"]));
    assert_eq!(split_on("", '/'), strings(&[""]));
    assert_eq!(split_on("/", '/'), strings(&["", ""]));
    assert_eq!(split_on("a//b/", '/'), strings(&["a", "", "b", ""]));
    assert_eq!(split_on("plain", '/'), strings(&["plain"]));
}

#[test]
fn split_counts_characters_not_bytes() {
    assert_eq!(split_on("é/ü", '/'), strings(&["é", "ü"]));
    assert_eq!(chars_of("aé"), vec!['a', 'é']);
    assert_eq!(find_char("éé=x", '='), 2);
    assert_eq!(find_char("none", '='), 4);
    assert_eq!(find_char("", '='), 0);
}

#[test]
fn same_text_compares_contents() {
    assert!(same_text("GET", "GET"));
    assert!(!same_text("GET", "get"));
    assert!(!same_text("GET", "GETS"));
    assert!(same_text("", ""));
}

#[test]
fn method_names_are_upper_case() {
    assert_eq!(Method::from_name("GET"), Some(Method::Get));
    assert_eq!(Method::from_name("POST"), Some(Method::Post));
    assert_eq!(Method::from_name("PUT"), Some(Method::Put));
    assert_eq!(Method::from_name("PATCH"), Some(Method::Patch));
    assert_eq!(Method::from_name("DELETE"), Some(Method::Delete));
    assert_eq!(Method::from_name("HEAD"), Some(Method::Head));
    assert_eq!(Method::from_name("OPTIONS"), Some(Method::Options));
    assert_eq!(Method::from_name("CONNECT"), Some(Method::Connect));
    assert_eq!(Method::from_name("TRACE"), Some(Method::Trace));
    assert_eq!(Method::from_name("get"), None);
    assert_eq!(Method::from_name(""), None);
    assert_eq!(Method::from_name("FETCH"), None);
}

#[test]
fn four_methods_carry_a_body() {
    assert!(Method::Post.carries_body());
    assert!(Method::Put.carries_body());
    assert!(Method::Patch.carries_body());
    assert!(Method::Delete.carries_body());
    assert!(!Method::Get.carries_body());
    assert!(!Method::Head.carries_body());
    assert!(!Method::Options.carries_body());
    assert!(!Method::Connect.carries_body());
    assert!(!Method::Trace.carries_body());
}

#[test]
fn capability_kinds_and_shapes() {
    let blocking = HandlerCapability::new(7u32, false, 0);
    assert_eq!(blocking, HandlerCapability::Blocking(7, 0));
    assert!(!blocking.is_cooperative());
    assert_eq!(blocking.call_shape(), CallShape::NoArgument);
    assert_eq!(blocking.execution_site(), ExecutionSite::OffloadPool);
    assert_eq!(*blocking.handler(), 7);
    let cooperative = HandlerCapability::new(8u32, true, 1);
    assert_eq!(cooperative, HandlerCapability::Cooperative(8, 1));
    assert!(cooperative.is_cooperative());
    assert_eq!(cooperative.number_of_params(), 1);
    assert_eq!(cooperative.call_shape(), CallShape::SingleArgument);
    assert_eq!(cooperative.execution_site(), ExecutionSite::LoopThread);
}

#[test]
fn two_or_more_arguments_are_called_like_one() {
    for n in [2u8, 3, 17, 255] {
        assert_eq!(HandlerCapability::new((), false, n).call_shape(), CallShape::SingleArgument);
        assert_eq!(HandlerCapability::new((), true, n).call_shape(), CallShape::SingleArgument);
    }
}

#[test]
fn parameter_segments_start_with_a_colon() {
    assert!(segment_is_param(":id"));
    assert!(segment_is_param(":"));
    assert!(segment_is_param("::"));
    assert!(!segment_is_param("id"));
    assert!(!segment_is_param(""));
    assert!(!segment_is_param("a:b"));
    assert_eq!(segment_param_name(":id"), Some("id".to_string()));
    assert_eq!(segment_param_name(":"), Some(String::new()));
    assert_eq!(segment_param_name(":é:"), Some("é:".to_string()));
    assert_eq!(segment_param_name("id"), None);
    assert_eq!(segment_param_name(""), None);
}

#[test]
fn pattern_faults_are_reported_leftmost_first() {
    assert_eq!(check_pattern(&strings(&["", "users", ":id"])), Ok(()));
    assert_eq!(check_pattern(&strings(&["", ":"])), Err(PatternError::EmptyParameterName));
    assert_eq!(check_pattern(&strings(&["", ":a", ":a"])), Err(PatternError::DuplicateParameter));
    assert_eq!(check_pattern(&strings(&[":a", ":a", ":"])), Err(PatternError::DuplicateParameter));
    assert_eq!(check_pattern(&strings(&[":", ":a", ":a"])), Err(PatternError::EmptyParameterName));
    assert_eq!(check_pattern(&strings(&[":a", "a", ":b"])), Ok(()));
    assert_eq!(check_pattern(&strings(&[])), Ok(()));
}

#[test]
fn pattern_matching_binds_in_path_order() {
    let pat = strings(&["", "users", ":id", "posts", ":post"]);
    let path = strings(&["", "users", "42", "posts", "7"]);
    assert_eq!(match_pattern(&pat, &path), Some(vec![pair("id", "42"), pair("post", "7")]));
    assert_eq!(match_pattern(&pat, &strings(&["", "users", "42", "posts"])), None);
    assert_eq!(match_pattern(&pat, &strings(&["", "users", "", "posts", "7"])), None);
    assert_eq!(match_pattern(&pat, &strings(&["", "Users", "42", "posts", "7"])), None);
    assert_eq!(match_pattern(&strings(&["", "a"]), &strings(&["", "a"])), Some(vec![]));
}

#[test]
fn literal_is_preferred_at_first_difference() {
    let literal = strings(&["", "users", "me"]);
    let param = strings(&["", "users", ":id"]);
    assert!(is_more_specific(&literal, &param));
    assert!(!is_more_specific(&param, &literal));
    assert!(!is_more_specific(&param, &param));
    assert!(!is_more_specific(&literal, &literal));
    let early = strings(&["", "a", ":x"]);
    let late = strings(&["", ":y", "b"]);
    assert!(is_more_specific(&early, &late));
    assert!(!is_more_specific(&late, &early));
}

#[test]
fn lookup_of_users_42_binds_id() {
    let mut router: Router<u32> = Router::new();
    assert_eq!(router.add_route("GET", "/users/:id", 1, false, 1), Ok(()));
    let found = router.get_route(Method::Get, "/users/42").unwrap();
    assert_eq!(found.index, 0);
    assert_eq!(*found.target, HandlerCapability::Blocking(1, 1));
    assert_eq!(found.params, vec![pair("id", "42")]);
}

#[test]
fn lookup_discriminates_methods() {
    let mut router: Router<u32> = Router::new();
    router.add_route("GET", "/things", 1, false, 0).unwrap();
    router.add_route("POST", "/things", 2, true, 1).unwrap();
    assert_eq!(*router.get_route(Method::Get, "/things").unwrap().target, HandlerCapability::Blocking(1, 0));
    assert_eq!(
        *router.get_route(Method::Post, "/things").unwrap().target,
        HandlerCapability::Cooperative(2, 1)
    );
    assert!(router.get_route(Method::Put, "/things").is_none());
}

#[test]
fn lookup_without_match_finds_nothing() {
    let mut router: Router<u32> = Router::new();
    assert!(router.get_route(Method::Get, "/").is_none());
    router.add_route("GET", "/users/:id", 1, false, 1).unwrap();
    assert!(router.get_route(Method::Get, "/users").is_none());
    assert!(router.get_route(Method::Get, "/users/").is_none());
    assert!(router.get_route(Method::Get, "/users/1/2").is_none());
    assert!(router.get_route(Method::Get, "users/1").is_none());
}

#[test]
fn literal_route_wins_over_parameter_route() {
    let mut router: Router<u32> = Router::new();
    router.add_route("GET", "/users/:id", 1, false, 1).unwrap();
    router.add_route("GET", "/users/me", 2, false, 1).unwrap();
    let me = router.get_route(Method::Get, "/users/me").unwrap();
    assert_eq!(me.index, 1);
    assert_eq!(me.params, vec![]);
    let other = router.get_route(Method::Get, "/users/you").unwrap();
    assert_eq!(other.index, 0);
    assert_eq!(other.params, vec![pair("id", "you")]);
}

#[test]
fn literal_route_wins_whatever_the_order() {
    let mut router: Router<u32> = Router::new();
    router.add_route("GET", "/users/me", 2, false, 1).unwrap();
    router.add_route("GET", "/users/:id", 1, false, 1).unwrap();
    assert_eq!(router.get_route(Method::Get, "/users/me").unwrap().index, 0);
    assert_eq!(router.get_route(Method::Get, "/users/you").unwrap().index, 1);
}

#[test]
fn earlier_position_decides_before_later() {
    let mut router: Router<u32> = Router::new();
    router.add_route("GET", "/:kind/list", 1, false, 1).unwrap();
    router.add_route("GET", "/users/:view", 2, false, 1).unwrap();
    let found = router.get_route(Method::Get, "/users/list").unwrap();
    assert_eq!(found.index, 1);
    assert_eq!(found.params, vec![pair("view", "list")]);
}

#[test]
fn first_registered_wins_among_equals() {
    let mut router: Router<u32> = Router::new();
    router.add_route("GET", "/items/:a", 1, false, 1).unwrap();
    router.add_route("GET", "/items/:b", 2, false, 1).unwrap();
    let found = router.get_route(Method::Get, "/items/9").unwrap();
    assert_eq!(found.index, 0);
    assert_eq!(found.params, vec![pair("a", "9")]);
}

#[test]
fn last_write_wins_and_keeps_its_place() {
    let mut router: Router<u32> = Router::new();
    router.add_route("GET", "/a", 1, false, 0).unwrap();
    router.add_route("GET", "/b", 2, false, 0).unwrap();
    router.add_route("GET", "/a", 3, true, 2).unwrap();
    let found = router.get_route(Method::Get, "/a").unwrap();
    assert_eq!(found.index, 0);
    assert_eq!(*found.target, HandlerCapability::Cooperative(3, 2));
    assert_eq!(router.get_route(Method::Get, "/b").unwrap().index, 1);
}

#[test]
fn registering_twice_is_registering_once() {
    let mut once: RouteTable<u32> = RouteTable::new();
    once.register(Some(Method::Get), "/x/:y", 5).unwrap();
    let mut twice: RouteTable<u32> = RouteTable::new();
    twice.register(Some(Method::Get), "/x/:y", 5).unwrap();
    twice.register(Some(Method::Get), "/x/:y", 5).unwrap();
    assert_eq!(once.len(), 1);
    assert_eq!(twice.len(), 1);
    assert_eq!(twice.pattern_at(0), Some("/x/:y"));
    assert_eq!(twice.target_at(0), Some(&5));
    assert_eq!(twice.pattern_at(1), None);
    assert_eq!(twice.target_at(1), None);
    assert_eq!(once.lookup(Some(Method::Get), "/x/1"), twice.lookup(Some(Method::Get), "/x/1"));
}

#[test]
fn registration_refuses_unknown_method_and_faulty_patterns() {
    let mut router: Router<u32> = Router::new();
    assert_eq!(router.add_route("FETCH", "/a", 1, false, 0), Err(RegistrationError::UnknownMethod));
    assert_eq!(router.add_route("GET", "/a/:", 1, false, 0), Err(RegistrationError::EmptyParameterName));
    assert_eq!(
        router.add_route("GET", "/:a/x/:a", 1, false, 0),
        Err(RegistrationError::DuplicateParameter)
    );
    assert_eq!(router.add_route("FETCH", "/:a/:a", 1, false, 0), Err(RegistrationError::UnknownMethod));
    assert!(router.get_route(Method::Get, "/a/b").is_none());
    assert!(router.get_route(Method::Get, "/1/x/2").is_none());
}

#[test]
fn substituted_path_returns_the_substituted_values() {
    let mut router: Router<u32> = Router::new();
    router.add_route("GET", "/shops/:shop/items/:item", 1, false, 1).unwrap();
    for (shop, item) in [("north", "42"), ("a b", ":colon"), ("é", "x=y&z")] {
        let path = format!("/shops/{}/items/{}", shop, item);
        let found = router.get_route(Method::Get, &path).unwrap();
        assert_eq!(found.index, 0);
        assert_eq!(found.params, vec![pair("shop", shop), pair("item", item)]);
    }
}

#[test]
fn repeated_lookups_agree() {
    let mut router: Router<u32> = Router::new();
    router.add_route("GET", "/a/:x", 1, false, 1).unwrap();
    router.add_route("GET", "/a/b", 2, false, 1).unwrap();
    router.add_route("GET", "/:y/b", 3, false, 1).unwrap();
    for path in ["/a/b", "/a/c", "/z/b", "/z/z", "/"] {
        let first = router.get_route(Method::Get, path);
        let second = router.get_route(Method::Get, path);
        assert_eq!(first, second);
    }
    assert_eq!(router.get_route(Method::Get, "/a/b").unwrap().index, 1);
    assert_eq!(router.get_route(Method::Get, "/a/c").unwrap().index, 0);
    assert_eq!(router.get_route(Method::Get, "/z/b").unwrap().index, 2);
    assert!(router.get_route(Method::Get, "/z/z").is_none());
}

#[test]
fn web_socket_routes_ignore_methods() {
    let mut router: Router<u32> = Router::new();
    assert_eq!(router.add_websocket_route("/ws/:room", (1, false, 1), (2, true, 0), (3, false, 2)), Ok(()));
    assert_eq!(router.web_socket_route_count(), 1);
    assert_eq!(router.web_socket_pattern(0), Some("/ws/:room"));
    assert_eq!(router.web_socket_pattern(1), None);
    assert!(router.web_socket_hooks(1).is_none());
    let found = router.get_web_socket_route("/ws/lobby").unwrap();
    assert_eq!(found.params, vec![pair("room", "lobby")]);
    assert_eq!(found.target.connect, HandlerCapability::Blocking(1, 1));
    assert_eq!(found.target.close, HandlerCapability::Cooperative(2, 0));
    assert_eq!(found.target.message, HandlerCapability::Blocking(3, 2));
    assert_eq!(router.web_socket_hooks(0).unwrap().connect, HandlerCapability::Blocking(1, 1));
    assert!(router.get_web_socket_route("/ws").is_none());
    assert!(router.get_route(Method::Get, "/ws/lobby").is_none());
}

#[test]
fn web_socket_registration_replaces_and_refuses() {
    let mut router: Router<u32> = Router::new();
    router.add_websocket_route("/ws", (1, false, 1), (2, false, 1), (3, false, 1)).unwrap();
    router.add_websocket_route("/ws", (4, false, 1), (5, false, 1), (6, false, 1)).unwrap();
    assert_eq!(router.web_socket_route_count(), 1);
    assert_eq!(router.get_web_socket_route("/ws").unwrap().target.message, HandlerCapability::Blocking(6, 1));
    assert_eq!(
        router.add_websocket_route("/:a/:a", (1, false, 1), (2, false, 1), (3, false, 1)),
        Err(RegistrationError::DuplicateParameter)
    );
    assert_eq!(
        router.add_websocket_route("/:", (1, false, 1), (2, false, 1), (3, false, 1)),
        Err(RegistrationError::EmptyParameterName)
    );
    assert_eq!(router.web_socket_route_count(), 1);
}
