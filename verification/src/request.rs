//! The request as a handler receives it.

use vstd::prelude::*;
use crate::assoc::{keys_unique, lemma_merged_last_wins, merge_pairs, merged, Pairs};
use crate::method::Method;
use crate::query::{lemma_query_last_value_wins, parse_query, query_pairs};

verus! {

/// A request in the shape that handlers take as their one argument.
#[derive(Debug, PartialEq, Eq)]
pub struct ParsedRequest {
    /// The method.
    pub method: Method,
    /// The parameters that the route pattern bound on the path.
    pub params: Vec<(String, String)>,
    /// The parameters of the query string, no key twice.
    pub queries: Vec<(String, String)>,
    /// The headers, no name twice.
    pub headers: Vec<(String, String)>,
    /// The body; only a request whose method carries one has it.
    pub body: Option<Vec<u8>>,
}

/// A request as contracts see it.
pub struct RequestView {
    pub method: Method,
    pub params: Pairs,
    pub queries: Pairs,
    pub headers: Pairs,
    pub body: Option<Seq<u8>>,
}

impl View for ParsedRequest {
    type V = RequestView;

    open spec fn view(&self) -> RequestView {
        RequestView {
            method: self.method,
            params: self.params.deep_view(),
            queries: self.queries.deep_view(),
            headers: self.headers.deep_view(),
            body: match self.body {
                Some(bytes) => Some(bytes@),
                None => None,
            },
        }
    }
}

/// The request that the parts of a request make: the path parameters as
/// they were bound, the parameters of the query string, the headers with
/// every name once, and the body only where the method carries one.
pub open spec fn normalized(
    method: Method,
    params: Pairs,
    query_string: Seq<char>,
    headers: Pairs,
    body: Option<Seq<u8>>,
) -> RequestView {
    RequestView {
        method,
        params,
        queries: query_pairs(query_string),
        headers: merged(headers),
        body: if method.spec_carries_body() {
            body
        } else {
            None
        },
    }
}

/// In a request made by `normalized` no query key and no header name comes
/// twice, and a body is there only where the method carries one.
pub proof fn lemma_normalized_is_well_formed(
    method: Method,
    params: Pairs,
    query_string: Seq<char>,
    headers: Pairs,
    body: Option<Seq<u8>>,
)
    ensures
        keys_unique(normalized(method, params, query_string, headers, body).queries),
        keys_unique(normalized(method, params, query_string, headers, body).headers),
        normalized(method, params, query_string, headers, body).body is Some
            ==> method.spec_carries_body(),
{
    lemma_query_last_value_wins(query_string);
    lemma_merged_last_wins(headers);
}

/// Puts a request together from its parts.
pub fn normalize(
    method: Method,
    params: Vec<(String, String)>,
    query_string: &str,
    headers: Vec<(String, String)>,
    body: Option<Vec<u8>>,
) -> (request: ParsedRequest)
    ensures
        request@ == normalized(
            method,
            params.deep_view(),
            query_string@,
            headers.deep_view(),
            match body {
                Some(bytes) => Some(bytes@),
                None => None,
            },
        ),
{
    let queries = parse_query(query_string);
    let headers = merge_pairs(headers);
    let body = if method.carries_body() {
        body
    } else {
        None
    };
    ParsedRequest { method, params, queries, headers, body }
}

} // verus!
