//! From the outcome of an execution to the response that goes out.

use vstd::prelude::*;
use crate::assoc::{as_map, keys_unique, lemma_index_of_key, lemma_with_pair, put_value, value_of,
    with_pair, Pairs};
use crate::capability::HandlerCapability;
use crate::error::ServerError;
use crate::executors::{Reply, ReplyView};
use crate::headers::{HeaderMap, HeaderStore};
use crate::method::Method;
use crate::query::{parse_query, query_pairs};
use crate::route_table::resolve;
use crate::router::Router;
use crate::status::{status_from_text, status_of};

verus! {

/// The status of a response to a request that no route answers.
pub const NOT_FOUND_STATUS: u16 = 200;

/// The status of a response to a request that failed.
pub const FAILURE_STATUS: u16 = 500;

/// A response, ready for the wire.
#[derive(Debug, PartialEq, Eq)]
pub struct Response {
    /// The status code.
    pub status: u16,
    /// The headers, no name twice.
    pub headers: Vec<(String, String)>,
    /// The body.
    pub body: Vec<u8>,
}

/// A response as contracts see it.
pub struct ResponseView {
    pub status: u16,
    pub headers: Pairs,
    pub body: Seq<u8>,
}

impl View for Response {
    type V = ResponseView;

    open spec fn view(&self) -> ResponseView {
        ResponseView { status: self.status, headers: self.headers.deep_view(), body: self.body@ }
    }
}

/// The status and the body that an outcome leads to. A reply whose status
/// code reads as one goes out as it is. Where no route answered, the
/// response is empty with `NOT_FOUND_STATUS`. Every other outcome, a status
/// code that does not read as one among them, is an empty response with
/// `FAILURE_STATUS`.
pub open spec fn status_and_body(outcome: Result<ReplyView, ServerError>) -> (u16, Seq<u8>) {
    match outcome {
        Ok(ReplyView::Response { status_code, body }) => match status_of(status_code) {
            Some(code) => (code, body),
            None => (FAILURE_STATUS, Seq::empty()),
        },
        Ok(ReplyView::Fragments(_)) => (FAILURE_STATUS, Seq::empty()),
        Err(ServerError::RouteNotFound) => (NOT_FOUND_STATUS, Seq::empty()),
        Err(_) => (FAILURE_STATUS, Seq::empty()),
    }
}

/// The outcome as contracts see it.
pub open spec fn outcome_view(outcome: Result<Reply, ServerError>) -> Result<ReplyView, ServerError> {
    match outcome {
        Ok(reply) => Ok(reply@),
        Err(e) => Err(e),
    }
}

proof fn lemma_prefix_map(pairs: Pairs, i: int)
    requires
        keys_unique(pairs),
        0 <= i < pairs.len(),
    ensures
        as_map(pairs.take(i + 1)) == as_map(pairs.take(i)).insert(pairs[i].0, pairs[i].1),
{
    let before = pairs.take(i);
    lemma_index_of_key(before, pairs[i].0, i);
    assert(with_pair(before, pairs[i].0, pairs[i].1) == pairs.take(i + 1));
    lemma_with_pair(before, pairs[i].0, pairs[i].1);
}

/// Copies every default header into the response. A header that the
/// response had under the same name is replaced; its other headers, its
/// status and its body stay.
pub fn apply_headers(response: &mut Response, headers: &HeaderStore)
    ensures
        as_map(final(response)@.headers) == as_map(old(response)@.headers).union_prefer_right(
            headers@,
        ),
        keys_unique(old(response)@.headers) ==> keys_unique(final(response)@.headers),
        final(response)@.status == old(response)@.status,
        final(response)@.body == old(response)@.body,
{
    let defaults = headers.snapshot();
    let ghost before = response@.headers;
    let ghost pairs = defaults.deep_view();
    let mut i: usize = 0;
    while i < defaults.len()
        invariant
            pairs == defaults.deep_view(),
            keys_unique(pairs),
            0 <= i <= defaults.len(),
            as_map(response@.headers) == as_map(before).union_prefer_right(
                as_map(pairs.take(i as int)),
            ),
            keys_unique(before) ==> keys_unique(response@.headers),
            response@.status == old(response)@.status,
            response@.body == old(response)@.body,
        decreases defaults.len() - i,
    {
        let key = defaults[i].0.clone();
        let value = defaults[i].1.clone();
        proof {
            lemma_with_pair(response@.headers, key@, value@);
            lemma_prefix_map(pairs, i as int);
        }
        put_value(&mut response.headers, key, value);
        i += 1;
    }
    assert(pairs.take(pairs.len() as int) == pairs);
}

/// Puts together the response to a request from the outcome of its
/// execution and the default headers as they are now.
pub fn handle_request(outcome: Result<Reply, ServerError>, headers: &HeaderStore) -> (response:
    Response)
    ensures
        response@.status == status_and_body(outcome_view(outcome)).0,
        response@.body == status_and_body(outcome_view(outcome)).1,
        as_map(response@.headers) == headers@,
        keys_unique(response@.headers),
{
    let mut response = Response { status: FAILURE_STATUS, headers: Vec::new(), body: Vec::new() };
    match outcome {
        Ok(Reply::Response { status_code, body }) => match status_from_text(status_code.as_str()) {
            Some(code) => {
                response.status = code;
                response.body = body;
            },
            None => {},
        },
        Ok(Reply::Fragments(_)) => {},
        Err(ServerError::RouteNotFound) => {
            response.status = NOT_FOUND_STATUS;
        },
        Err(_) => {},
    }
    apply_headers(&mut response, headers);
    response
}

/// The fragments that the outcome of a pre-dispatch hook contributes: what
/// the hook returned, or none where it failed.
pub open spec fn fragments_of(outcome: Result<ReplyView, ServerError>) -> Seq<Pairs> {
    match outcome {
        Ok(ReplyView::Fragments(fragments)) => fragments,
        _ => Seq::empty(),
    }
}

/// Takes the fragments from the outcome of a pre-dispatch hook. A hook that
/// failed contributes none, and the request goes on.
pub fn handle_middleware_request(outcome: Result<Reply, ServerError>) -> (fragments: Vec<
    Vec<(String, String)>,
>)
    ensures
        fragments.deep_view() == fragments_of(outcome_view(outcome)),
{
    match outcome {
        Ok(Reply::Fragments(fragments)) => fragments,
        _ => {
            let nothing: Vec<Vec<(String, String)>> = Vec::new();
            nothing
        },
    }
}

/// Where a request goes.
pub enum Routed<'a, H> {
    /// To this handler, with these path and query parameters.
    Found {
        capability: &'a HandlerCapability<H>,
        params: Vec<(String, String)>,
        queries: Vec<(String, String)>,
    },
    /// Nowhere: this response goes out.
    NotFound(Response),
}

/// Routes a request: reads its query string, looks its method and path up,
/// and either names the handler to run or gives the response for a request
/// that no route answers.
pub fn index<'a, H>(
    router: &'a Router<H>,
    headers: &HeaderStore,
    method: Method,
    path: &str,
    query_string: &str,
) -> (routed: Routed<'a, H>)
    ensures
        match resolve(router.routes(), Some(method), path@) {
            Some(m) => routed matches Routed::Found { capability, params, queries }
                && *capability == m.target && params.deep_view() == m.params && keys_unique(
                m.params,
            ) && queries.deep_view() == query_pairs(query_string@),
            None => routed matches Routed::NotFound(response) && response@.status
                == NOT_FOUND_STATUS && response@.body == Seq::<u8>::empty() && as_map(
                response@.headers,
            ) == headers@,
        },
{
    let queries = parse_query(query_string);
    match router.get_route(method, path) {
        Some(found) => Routed::Found { capability: found.target, params: found.params, queries },
        None => Routed::NotFound(handle_request(Err(ServerError::RouteNotFound), headers)),
    }
}

/// A response holds exactly the default headers of the moment it was put
/// together. A header set before that moment is in it with the value set; a
/// name that the store did not hold at that moment is not in it, whatever
/// is set afterwards.
pub proof fn lemma_headers_are_a_snapshot(
    store: HeaderMap,
    key: Seq<char>,
    value: Seq<char>,
    earlier: Pairs,
    later: Pairs,
)
    requires
        as_map(earlier) == store,
        as_map(later) == store.insert(key, value),
    ensures
        value_of(later, key) == Some(value),
        !store.contains_key(key) ==> value_of(earlier, key) is None,
        forall|other: Seq<char>| other != key ==> value_of(earlier, other) == value_of(later, other),
{
    assert(as_map(later).contains_key(key));
    assert(as_map(later)[key] == value);
    assert forall|other: Seq<char>| other != key implies value_of(earlier, other) == value_of(
        later,
        other,
    ) by {
        assert(as_map(earlier).contains_key(other) == as_map(later).contains_key(other));
        if as_map(earlier).contains_key(other) {
            assert(as_map(earlier)[other] == as_map(later)[other]);
        }
    }
}

} // verus!
