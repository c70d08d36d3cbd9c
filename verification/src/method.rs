//! Request methods and the two questions asked of them: which one a name
//! denotes, and whether a request with that method carries a body.

use vstd::prelude::*;
use crate::text::same_text;

verus! {

/// A request method that routes can be registered under.
#[derive(Clone, Copy, Debug, PartialEq, Eq, Structural)]
pub enum Method {
    Get,
    Post,
    Put,
    Patch,
    Delete,
    Head,
    Options,
    Connect,
    Trace,
}

/// The method that the upper-case name `name` denotes, if any.
pub open spec fn method_named(name: Seq<char>) -> Option<Method> {
    if name == "GET"@ {
        Some(Method::Get)
    } else if name == "POST"@ {
        Some(Method::Post)
    } else if name == "PUT"@ {
        Some(Method::Put)
    } else if name == "PATCH"@ {
        Some(Method::Patch)
    } else if name == "DELETE"@ {
        Some(Method::Delete)
    } else if name == "HEAD"@ {
        Some(Method::Head)
    } else if name == "OPTIONS"@ {
        Some(Method::Options)
    } else if name == "CONNECT"@ {
        Some(Method::Connect)
    } else if name == "TRACE"@ {
        Some(Method::Trace)
    } else {
        None
    }
}

impl Method {
    /// Whether a request with this method has its body read.
    pub open spec fn spec_carries_body(self) -> bool {
        self == Method::Post || self == Method::Put || self == Method::Patch || self
            == Method::Delete
    }

    /// Whether a request with this method has its body read: true for POST,
    /// PUT, PATCH and DELETE only.
    #[verifier::when_used_as_spec(spec_carries_body)]
    pub fn carries_body(self) -> (carries: bool)
        ensures
            carries == self.spec_carries_body(),
    {
        match self {
            Method::Post | Method::Put | Method::Patch | Method::Delete => true,
            _ => false,
        }
    }

    /// Reads a method from its upper-case name.
    pub fn from_name(name: &str) -> (method: Option<Method>)
        ensures
            method == method_named(name@),
    {
        if same_text(name, "GET") {
            Some(Method::Get)
        } else if same_text(name, "POST") {
            Some(Method::Post)
        } else if same_text(name, "PUT") {
            Some(Method::Put)
        } else if same_text(name, "PATCH") {
            Some(Method::Patch)
        } else if same_text(name, "DELETE") {
            Some(Method::Delete)
        } else if same_text(name, "HEAD") {
            Some(Method::Head)
        } else if same_text(name, "OPTIONS") {
            Some(Method::Options)
        } else if same_text(name, "CONNECT") {
            Some(Method::Connect)
        } else if same_text(name, "TRACE") {
            Some(Method::Trace)
        } else {
            None
        }
    }
}

} // verus!
