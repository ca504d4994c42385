//! The request side of the data model.

use vstd::prelude::*;

verus! {

/// The eight request methods a caller can ask for.
#[derive(Debug, Clone, Copy, PartialEq, Eq, Structural)]
pub enum Method {
    GET,
    POST,
    PUT,
    DELETE,
    HEAD,
    PATCH,
    OPTIONS,
    CONNECT,
}

/// How the body of a response is to be displayed.
#[derive(Debug, Clone, Copy, PartialEq, Eq, Structural)]
pub enum ResponseType {
    TEXT,
    JSON,
}

/// The token that goes on the wire for a method.
pub open spec fn verb_of(method: Method) -> Seq<char> {
    match method {
        Method::GET => "GET"@,
        Method::POST => "POST"@,
        Method::PUT => "PUT"@,
        Method::DELETE => "DELETE"@,
        Method::HEAD => "HEAD"@,
        Method::PATCH => "PATCH"@,
        Method::OPTIONS => "OPTIONS"@,
        Method::CONNECT => "CONNECT"@,
    }
}

impl Method {
    /// The literal method name under which the request is issued. Every
    /// method, `OPTIONS` and `CONNECT` included, is sent under its own name.
    pub fn verb(self) -> (token: &'static str)
        ensures
            token@ == verb_of(self),
    {
        match self {
            Method::GET => "GET",
            Method::POST => "POST",
            Method::PUT => "PUT",
            Method::DELETE => "DELETE",
            Method::HEAD => "HEAD",
            Method::PATCH => "PATCH",
            Method::OPTIONS => "OPTIONS",
            Method::CONNECT => "CONNECT",
        }
    }
}

/// One header: a name and its value.
#[derive(Debug, PartialEq, Eq)]
pub struct HeaderEntry {
    pub name: String,
    pub value: String,
}

impl View for HeaderEntry {
    type V = (Seq<char>, Seq<char>);

    open spec fn view(&self) -> (Seq<char>, Seq<char>) {
        (self.name@, self.value@)
    }
}

impl Clone for HeaderEntry {
    fn clone(&self) -> (copy: Self)
        ensures
            copy == *self,
    {
        HeaderEntry { name: self.name.clone(), value: self.value.clone() }
    }
}

impl HeaderEntry {
    /// An entry from two string slices.
    pub fn new(name: &str, value: &str) -> (entry: Self)
        ensures
            entry@ == (name@, value@),
    {
        HeaderEntry { name: name.to_owned(), value: value.to_owned() }
    }
}

/// A header list as pairs of character sequences, in the list's order.
pub open spec fn pairs(headers: Seq<HeaderEntry>) -> Seq<(Seq<char>, Seq<char>)> {
    headers.map_values(|h: HeaderEntry| h@)
}

/// What a caller asks for: one HTTP exchange, tagged with an index of the
/// caller's choosing under which the answer will come back.
#[derive(Debug, PartialEq, Eq)]
pub struct HttpRequest {
    pub url: String,
    pub method: Method,
    pub body: String,
    pub headers: Vec<HeaderEntry>,
    pub request_index: usize,
}

} // verus!
