//! The plain model of an HTTP exchange as the pipeline sees it: a
//! method, a path, a header list and a raw body on the way in; a
//! status and a body on the way out.  The caller is expected to hand
//! header names in lower case; lookups here are exact.

use vstd::prelude::*;
use crate::strutil::str_eq;

verus! {

/// The request methods the dispatch table distinguishes; everything
/// else cannot match a route.
#[derive(Clone, Copy, Debug, PartialEq, Eq, Structural)]
pub enum Method {
    Get,
    Post,
    Other,
}

/// An inbound request: ephemeral, owned by one handling call.  Header
/// names are expected lower-cased.
#[derive(Debug)]
pub struct Request {
    pub method: Method,
    pub path: String,
    pub headers: Vec<(String, String)>,
    pub body: Vec<u8>,
}

/// The mathematical content of a request.
#[verifier::ext_equal]
pub struct RequestModel {
    pub method: Method,
    pub path: Seq<char>,
    pub headers: Seq<(Seq<char>, Seq<char>)>,
    pub body: Seq<u8>,
}

impl View for Request {
    type V = RequestModel;

    open spec fn view(&self) -> RequestModel {
        RequestModel {
            method: self.method,
            path: self.path@,
            headers: self.headers.deep_view(),
            body: self.body@,
        }
    }
}

/// An outbound response: a status code and a body.
#[derive(Debug)]
pub struct Response {
    pub status: u16,
    pub body: Vec<u8>,
}

/// The mathematical content of a response.
#[verifier::ext_equal]
pub struct ResponseModel {
    pub status: u16,
    pub body: Seq<u8>,
}

impl View for Response {
    type V = ResponseModel;

    open spec fn view(&self) -> ResponseModel {
        ResponseModel { status: self.status, body: self.body@ }
    }
}

pub const STATUS_OK: u16 = 200;

pub const STATUS_BAD_REQUEST: u16 = 400;

pub const STATUS_NOT_FOUND: u16 = 404;

pub const STATUS_PAYLOAD_TOO_LARGE: u16 = 413;

/// The value of the first header with the given name.
pub open spec fn spec_header_value(headers: Seq<(Seq<char>, Seq<char>)>, name: Seq<char>) -> Option<
    Seq<char>,
>
    decreases headers.len(),
{
    if headers.len() == 0 {
        None
    } else if headers[0].0 == name {
        Some(headers[0].1)
    } else {
        spec_header_value(headers.skip(1), name)
    }
}

/// Look up the value of the first header with the given name.
pub fn header_value<'a>(headers: &'a Vec<(String, String)>, name: &str) -> (r: Option<&'a String>)
    ensures
        r is Some <==> spec_header_value(headers.deep_view(), name@) is Some,
        r matches Some(v) ==> spec_header_value(headers.deep_view(), name@) == Some(v@),
{
    let n = headers.len();
    let mut i: usize = 0;
    proof {
        assert(headers.deep_view().skip(0) =~= headers.deep_view());
    }
    while i < n
        invariant
            n == headers@.len(),
            n == headers.deep_view().len(),
            i <= n,
            spec_header_value(headers.deep_view(), name@) == spec_header_value(
                headers.deep_view().skip(i as int),
                name@,
            ),
        decreases n - i,
    {
        proof {
            assert(headers.deep_view().skip(i as int)[0] == headers.deep_view()[i as int]);
            assert(headers.deep_view()[i as int] == headers@[i as int].deep_view());
        }
        let pair = &headers[i];
        if str_eq(pair.0.as_str(), name) {
            return Some(&pair.1);
        }
        proof {
            assert(headers.deep_view().skip(i as int).skip(1) =~= headers.deep_view().skip(
                i as int + 1,
            ));
        }
        i = i + 1;
    }
    proof {
        assert(headers.deep_view().skip(n as int) =~= Seq::<(Seq<char>, Seq<char>)>::empty());
    }
    None
}

} // verus!
