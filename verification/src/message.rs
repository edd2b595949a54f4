//! Requests and responses as the proxy core sees them: an HTTP method, a
//! target (host and path), headers, and a byte body. The byte-level codec that
//! produces and consumes these values lives outside the library.

use vstd::prelude::*;

verus! {

/// The HTTP methods of the request line. A request whose method has no
/// registered handler is dropped by the dispatcher without a response.
#[derive(Clone, Copy, PartialEq, Eq, Structural, Debug)]
pub enum Method {
    Get,
    Head,
    Post,
    Put,
    Delete,
    Connect,
    Options,
    Trace,
    Patch,
}

/// The identity under which a request is cached: its method and its target
/// URI (host and path). Header order and body play no part in the key.
pub struct RequestId {
    pub method: Method,
    pub host: Seq<char>,
    pub path: Seq<char>,
}

/// Mathematical model of a request.
#[verifier::ext_equal]
pub struct RequestModel {
    pub method: Method,
    pub host: Seq<char>,
    pub path: Seq<char>,
    pub headers: Seq<(Seq<char>, Seq<char>)>,
    pub body: Seq<u8>,
}

impl RequestModel {
    /// The cache key this request is addressed by.
    pub open spec fn id(self) -> RequestId {
        RequestId { method: self.method, host: self.host, path: self.path }
    }
}

/// Mathematical model of a response.
#[verifier::ext_equal]
pub struct ResponseModel {
    pub status: u16,
    pub headers: Seq<(Seq<char>, Seq<char>)>,
    pub body: Seq<u8>,
}

/// The view of a header list: each name/value pair as character sequences.
pub open spec fn headers_view(h: Seq<(String, String)>) -> Seq<(Seq<char>, Seq<char>)> {
    h.map_values(|p: (String, String)| (p.0@, p.1@))
}

/// A parsed HTTP request. Duplicate header names are representable; the
/// header list keeps insertion order.
pub struct Request {
    pub method: Method,
    pub host: String,
    pub path: String,
    pub headers: Vec<(String, String)>,
    pub body: Vec<u8>,
}

impl View for Request {
    type V = RequestModel;

    open spec fn view(&self) -> RequestModel {
        RequestModel {
            method: self.method,
            host: self.host@,
            path: self.path@,
            headers: headers_view(self.headers@),
            body: self.body@,
        }
    }
}

/// A parsed HTTP response, immutable once constructed.
pub struct Response {
    pub status: u16,
    pub headers: Vec<(String, String)>,
    pub body: Vec<u8>,
}

impl View for Response {
    type V = ResponseModel;

    open spec fn view(&self) -> ResponseModel {
        ResponseModel { status: self.status, headers: headers_view(self.headers@), body: self.body@ }
    }
}

/// Copies a byte body element by element.
fn clone_bytes(v: &Vec<u8>) -> (r: Vec<u8>)
    ensures
        r@ == v@,
{
    let mut r: Vec<u8> = Vec::new();
    let mut i: usize = 0;
    while i < v.len()
        invariant
            i <= v.len(),
            r@ == v@.subrange(0, i as int),
        decreases v.len() - i,
    {
        r.push(v[i]);
        i = i + 1;
        proof {
            assert(r@ =~= v@.subrange(0, i as int));
        }
    }
    proof {
        assert(v@.subrange(0, v.len() as int) =~= v@);
    }
    r
}

/// Copies a header list pair by pair.
fn clone_headers(h: &Vec<(String, String)>) -> (r: Vec<(String, String)>)
    ensures
        headers_view(r@) == headers_view(h@),
{
    let mut r: Vec<(String, String)> = Vec::new();
    let mut i: usize = 0;
    while i < h.len()
        invariant
            i <= h.len(),
            r@.len() == i,
            forall|j: int|
                0 <= j < i ==> (#[trigger] r@[j]).0@ == h@[j].0@ && r@[j].1@ == h@[j].1@,
        decreases h.len() - i,
    {
        let name = h[i].0.clone();
        let value = h[i].1.clone();
        r.push((name, value));
        i = i + 1;
    }
    proof {
        assert(headers_view(r@) =~= headers_view(h@));
    }
    r
}

impl Clone for Response {
    /// A copy of a response carries the same status, headers and body.
    fn clone(&self) -> (res: Self)
        ensures
            res@ == self@,
    {
        let res = Response {
            status: self.status,
            headers: clone_headers(&self.headers),
            body: clone_bytes(&self.body),
        };
        proof {
            assert(res@ =~= self@);
        }
        res
    }
}

/// Appends a header to the request in place; every other part of the request
/// is unchanged. Appending keeps any earlier header of the same name, so
/// duplicate names remain representable.
pub fn extend_header_value(req: &mut Request, name: &str, value: &str)
    ensures
        final(req)@ == (RequestModel {
            headers: old(req)@.headers.push((name@, value@)),
            ..old(req)@
        }),
{
    let name_owned = name.to_owned();
    let value_owned = value.to_owned();
    req.headers.push((name_owned, value_owned));
    proof {
        assert(headers_view(req.headers@) =~= old(req)@.headers.push((name@, value@)));
        assert(req@ =~= (RequestModel {
            headers: old(req)@.headers.push((name@, value@)),
            ..old(req)@
        }));
    }
}

/// A synthesized error response: the given status, no headers, empty body.
pub open spec fn error_response(status: u16) -> ResponseModel {
    ResponseModel { status, headers: Seq::empty(), body: Seq::empty() }
}

/// Synthesizes the error response the proxy sends when it cannot relay an
/// origin response: the given status code with no headers and an empty body.
pub fn make_http_error(status: u16) -> (r: Response)
    ensures
        r@ == error_response(status),
{
    let r = Response { status, headers: Vec::new(), body: Vec::new() };
    proof {
        assert(r@ =~= error_response(status));
    }
    r
}

} // verus!
