//! Requests, as the transport hands them over once it has parsed them.

use vstd::prelude::*;

verus! {

/// What dispatch reads of a request.
#[derive(Clone, Debug, PartialEq, Eq)]
pub struct Request {
    /// The method's name as the request line spells it.
    pub method: String,
    /// The path of the request target: no query, no fragment.
    pub path: String,
    /// The whole request target.
    pub uri: String,
}

/// A request as a mathematical value.
pub struct RequestView {
    pub method: Seq<char>,
    pub path: Seq<char>,
    pub uri: Seq<char>,
}

impl View for Request {
    type V = RequestView;

    open spec fn view(&self) -> RequestView {
        RequestView { method: self.method@, path: self.path@, uri: self.uri@ }
    }
}

impl Request {
    /// Builds a request from its three parts.
    pub fn new(method: &str, path: &str, uri: &str) -> (request: Request)
        ensures
            request@ == (RequestView { method: method@, path: path@, uri: uri@ }),
    {
        Request { method: method.to_owned(), path: path.to_owned(), uri: uri.to_owned() }
    }
}

} // verus!
