//! Model of the HTTP exchange the client cares about: the request it
//! builds, and the outcome the transport hands back.

use vstd::prelude::*;
use vstd::string::StringExecFns;
use crate::text::spec_eq_ignore_ascii_case;
use crate::text::eq_ignore_ascii_case;

verus! {

/// The request methods the client uses.
#[derive(Clone, Copy, Debug, PartialEq, Eq, Structural)]
pub enum Method {
    Get,
    Post,
    Patch,
}

/// One request or response header.
pub struct Header {
    pub name: String,
    pub value: String,
}

/// The mathematical view of one header: its name and value texts.
pub open spec fn spec_header(h: Header) -> (Seq<char>, Seq<char>) {
    (h.name@, h.value@)
}

/// The mathematical view of a header list.
pub open spec fn spec_headers(hs: Seq<Header>) -> Seq<(Seq<char>, Seq<char>)> {
    hs.map_values(|h: Header| spec_header(h))
}

/// A request, ready for a transport to send.
pub struct HttpRequest {
    pub method: Method,
    pub url: String,
    pub headers: Vec<Header>,
    pub body: Option<String>,
}

impl HttpRequest {
    /// A request with no headers and no body yet.
    pub fn new(method: Method, url: String) -> (r: Self)
        ensures
            r.method == method,
            r.url == url,
            spec_headers(r.headers@) =~= Seq::<(Seq<char>, Seq<char>)>::empty(),
            r.body is None,
    {
        let r = HttpRequest { method, url, headers: Vec::new(), body: None };
        proof {
            assert(spec_headers(r.headers@) =~= Seq::<(Seq<char>, Seq<char>)>::empty());
        }
        r
    }

    /// Appends one header.
    pub fn set(self, name: &str, value: String) -> (r: Self)
        ensures
            r.method == self.method,
            r.url == self.url,
            r.body == self.body,
            spec_headers(r.headers@) =~= spec_headers(self.headers@).push((name@, value@)),
    {
        let mut headers = self.headers;
        let ghost before = headers@;
        headers.push(Header { name: String::from_str(name), value });
        proof {
            assert(spec_headers(headers@) =~= spec_headers(before).push((name@, value@)));
        }
        HttpRequest { method: self.method, url: self.url, headers, body: self.body }
    }

    /// Replaces the body.
    pub fn set_body(self, body: String) -> (r: Self)
        ensures
            r.method == self.method,
            r.url == self.url,
            r.headers == self.headers,
            r.body matches Some(b) && b == body,
    {
        HttpRequest { method: self.method, url: self.url, headers: self.headers, body: Some(body) }
    }
}

/// A response the transport received: status, headers, and body text.
pub struct HttpResponse {
    pub status: u16,
    pub headers: Vec<Header>,
    pub body: String,
}

/// What came back from one attempt to send a request: either a response
/// (of any status), or a connection-level failure with its description.
pub enum TransportOutcome {
    Failure(String),
    Response(HttpResponse),
}

/// True for HTTP status codes that count as success.
pub open spec fn spec_is_success_status(status: u16) -> bool {
    200 <= status < 300
}

/// Decides whether a status code counts as success.
pub fn is_success_status(status: u16) -> (r: bool)
    ensures
        r == spec_is_success_status(status),
{
    200 <= status && status < 300
}

/// The value of the first header whose name matches `name` up to ASCII
/// letter case, if any.
pub open spec fn spec_header_lookup(hs: Seq<Header>, name: Seq<char>) -> Option<Seq<char>>
    decreases hs.len(),
{
    if hs.len() == 0 {
        None
    } else if spec_eq_ignore_ascii_case(hs[0].name@, name) {
        Some(hs[0].value@)
    } else {
        spec_header_lookup(hs.skip(1), name)
    }
}

/// Looks a header up by name, ignoring ASCII letter case.
pub fn header_value(headers: &Vec<Header>, name: &str) -> (r: Option<String>)
    ensures
        r matches Some(v) ==> spec_header_lookup(headers@, name@) == Some(v@),
        r is None ==> spec_header_lookup(headers@, name@) is None,
{
    let n: usize = headers.len();
    let mut i: usize = 0;
    proof {
        assert(headers@.skip(0) =~= headers@);
    }
    while i < n
        invariant
            i <= n,
            n == headers@.len(),
            spec_header_lookup(headers@, name@) == spec_header_lookup(
                headers@.skip(i as int),
                name@,
            ),
        decreases n - i,
    {
        proof {
            assert(headers@.skip(i as int)[0] == headers@[i as int]);
        }
        if eq_ignore_ascii_case(headers[i].name.as_str(), name) {
            let v = headers[i].value.clone();
            return Some(v);
        }
        proof {
            assert(headers@.skip(i as int).skip(1) =~= headers@.skip(i + 1));
        }
        i = i + 1;
    }
    proof {
        assert(headers@.skip(n as int) =~= Seq::<Header>::empty());
    }
    None
}

} // verus!
