//! The webhook dispatch pipeline: route matching over the fixed table,
//! per-notifier authentication, payload decoding, event
//! classification, the body-size cap, and the rewriting of a no-route
//! failure into the fixed not-found response.

use vstd::prelude::*;
use crate::event::{classify, classify_spec, EventKind};
use crate::form::{form_first_value, spec_first_value};
use crate::http::{
    header_value, spec_header_value, Method, Request, RequestModel, Response, ResponseModel,
    STATUS_BAD_REQUEST, STATUS_NOT_FOUND, STATUS_OK, STATUS_PAYLOAD_TOO_LARGE,
};
use crate::json::{json_accepts, parse_json_ok};
use crate::sig::{signature_ok, spec_signature_ok};
use crate::strutil::{spec_starts_with, str_eq, str_starts_with};

verus! {

/// Why the pipeline turned a callback away.  Every rejection is
/// terminal for its request and answered with a client-error status.
#[derive(Clone, Copy, Debug, PartialEq, Eq, Structural)]
pub enum Reject {
    MissingEventHeader,
    BadUserAgent,
    UnknownEvent,
    BadSignature,
    EmptyBody,
    MalformedPayload,
    MissingPayloadField,
}

/// A route of the fixed dispatch table, built once at startup.
#[derive(Clone, Copy, Debug, PartialEq, Eq, Structural)]
pub enum Route {
    Index,
    Favicon,
    Github,
    Travis,
}

/// The dispatcher's failure when no route matches; the lifecycle
/// middleware rewrites it into the fixed not-found response instead of
/// surfacing it.
#[derive(Clone, Copy, Debug, PartialEq, Eq, Structural)]
pub enum DispatchError {
    NoRoute,
}

/// The largest request body accepted: ten mebibytes.
pub const MAX_BODY_LENGTH: usize = 1024 * 1024 * 10;

/// The route a method and path pair matches: exact matches only, no
/// path parameters, no trailing-slash normalization.
pub open spec fn route_spec(m: Method, path: Seq<char>) -> Option<Route> {
    if m == Method::Get && (path == "/"@ || path == "/index.html"@) {
        Some(Route::Index)
    } else if m == Method::Get && path == "/favicon.ico"@ {
        Some(Route::Favicon)
    } else if m == Method::Post && path == "/github"@ {
        Some(Route::Github)
    } else if m == Method::Post && path == "/travis"@ {
        Some(Route::Travis)
    } else {
        None
    }
}

/// Match a method and path against the fixed dispatch table.
pub fn route_of(m: Method, path: &str) -> (r: Option<Route>)
    ensures
        r == route_spec(m, path@),
{
    match m {
        Method::Get => {
            if str_eq(path, "/") || str_eq(path, "/index.html") {
                Some(Route::Index)
            } else if str_eq(path, "/favicon.ico") {
                Some(Route::Favicon)
            } else {
                None
            }
        },
        Method::Post => {
            if str_eq(path, "/github") {
                Some(Route::Github)
            } else if str_eq(path, "/travis") {
                Some(Route::Travis)
            } else {
                None
            }
        },
        Method::Other => None,
    }
}

/// The webhook gateway: the per-source shared secrets and the static
/// assets, fixed at startup and read-only while serving.  A secret
/// left out turns that source's signature check off.
pub struct Server {
    pub github_secret: Option<Vec<u8>>,
    pub travis_secret: Option<Vec<u8>>,
    pub index_page: Option<Vec<u8>>,
    pub favicon: Option<Vec<u8>>,
}

/// The mathematical content of the gateway state.
#[verifier::ext_equal]
pub struct ServerModel {
    pub github_secret: Option<Seq<u8>>,
    pub travis_secret: Option<Seq<u8>>,
    pub index_page: Option<Seq<u8>>,
    pub favicon: Option<Seq<u8>>,
}

/// The byte content of an optional byte vector.
pub open spec fn bytes_view(o: Option<Vec<u8>>) -> Option<Seq<u8>> {
    match o {
        Some(v) => Some(v@),
        None => None,
    }
}

impl View for Server {
    type V = ServerModel;

    open spec fn view(&self) -> ServerModel {
        ServerModel {
            github_secret: bytes_view(self.github_secret),
            travis_secret: bytes_view(self.travis_secret),
            index_page: bytes_view(self.index_page),
            favicon: bytes_view(self.favicon),
        }
    }
}

/// The source-control notifier's signature check: with a secret
/// configured, the signature header must be present and vouch for the
/// raw body under the secret; with none, the check is off.
pub open spec fn github_sig_ok(secret: Option<Seq<u8>>, r: RequestModel) -> bool {
    match secret {
        None => true,
        Some(sec) => match spec_header_value(r.headers, "x-hub-signature"@) {
            Some(h) => spec_signature_ok(sec, r.body, h),
            None => false,
        },
    }
}

/// The verdict of the source-control pipeline on a request: the event
/// header must be present; the user-agent must be present and carry
/// the hook product prefix; the event must classify; the signature
/// must check out before the body is looked at; and the body must be a
/// non-empty well-formed JSON document.
pub open spec fn github_eval(secret: Option<Seq<u8>>, r: RequestModel) -> Result<
    EventKind,
    Reject,
> {
    match spec_header_value(r.headers, "x-github-event"@) {
        None => Err(Reject::MissingEventHeader),
        Some(ev) => match spec_header_value(r.headers, "user-agent"@) {
            None => Err(Reject::BadUserAgent),
            Some(ua) => if !spec_starts_with(ua, "GitHub-Hookshot"@) {
                Err(Reject::BadUserAgent)
            } else {
                match classify_spec(ev) {
                    None => Err(Reject::UnknownEvent),
                    Some(k) => if !github_sig_ok(secret, r) {
                        Err(Reject::BadSignature)
                    } else if r.body.len() == 0 {
                        Err(Reject::EmptyBody)
                    } else if !json_accepts(r.body) {
                        Err(Reject::MalformedPayload)
                    } else {
                        Ok(k)
                    },
                }
            },
        },
    }
}

/// Run the source-control pipeline on a request.
pub fn github_check(secret: &Option<Vec<u8>>, req: &Request) -> (r: Result<EventKind, Reject>)
    ensures
        r == github_eval(bytes_view(*secret), req@),
{
    let ev = match header_value(&req.headers, "x-github-event") {
        Some(v) => v,
        None => {
            return Err(Reject::MissingEventHeader);
        },
    };
    let ua = match header_value(&req.headers, "user-agent") {
        Some(v) => v,
        None => {
            return Err(Reject::BadUserAgent);
        },
    };
    if !str_starts_with(ua.as_str(), "GitHub-Hookshot") {
        return Err(Reject::BadUserAgent);
    }
    let kind = match classify(ev.as_str()) {
        Some(k) => k,
        None => {
            return Err(Reject::UnknownEvent);
        },
    };
    match secret {
        Some(sec) => {
            let sighdr = match header_value(&req.headers, "x-hub-signature") {
                Some(v) => v,
                None => {
                    return Err(Reject::BadSignature);
                },
            };
            if !signature_ok(sec.as_slice(), req.body.as_slice(), sighdr.as_str()) {
                return Err(Reject::BadSignature);
            }
        },
        None => {},
    }
    if req.body.len() == 0 {
        return Err(Reject::EmptyBody);
    }
    if !parse_json_ok(req.body.as_slice()) {
        return Err(Reject::MalformedPayload);
    }
    Ok(kind)
}

/// The bytes of the form field name `payload`.
pub open spec fn payload_field() -> Seq<u8> {
    seq![
        ('p' as u8),
        ('a' as u8),
        ('y' as u8),
        ('l' as u8),
        ('o' as u8),
        ('a' as u8),
        ('d' as u8),
    ]
}

fn payload_field_bytes() -> (r: Vec<u8>)
    ensures
        r@ == payload_field(),
{
    let mut v: Vec<u8> = Vec::new();
    v.push('p' as u8);
    v.push('a' as u8);
    v.push('y' as u8);
    v.push('l' as u8);
    v.push('o' as u8);
    v.push('a' as u8);
    v.push('d' as u8);
    proof {
        assert(v@ =~= payload_field());
    }
    v
}

/// The CI notifier's signature check over the decoded payload bytes,
/// carried in the `signature` header; off when no secret is
/// configured.
pub open spec fn travis_sig_ok(secret: Option<Seq<u8>>, r: RequestModel, payload: Seq<u8>) -> bool {
    match secret {
        None => true,
        Some(sec) => match spec_header_value(r.headers, "signature"@) {
            Some(h) => spec_signature_ok(sec, payload, h),
            None => false,
        },
    }
}

/// The verdict of the CI pipeline on a request: the form-encoded body
/// must bind the field `payload`; the signature must vouch for the
/// decoded payload before it is looked at; and the payload must be a
/// well-formed JSON document.
pub open spec fn travis_eval(secret: Option<Seq<u8>>, r: RequestModel) -> Result<(), Reject> {
    match spec_first_value(r.body, payload_field()) {
        None => Err(Reject::MissingPayloadField),
        Some(p) => if !travis_sig_ok(secret, r, p) {
            Err(Reject::BadSignature)
        } else if !json_accepts(p) {
            Err(Reject::MalformedPayload)
        } else {
            Ok(())
        },
    }
}

/// Run the CI pipeline on a request.
pub fn travis_check(secret: &Option<Vec<u8>>, req: &Request) -> (r: Result<(), Reject>)
    ensures
        r == travis_eval(bytes_view(*secret), req@),
{
    let name = payload_field_bytes();
    let payload = match form_first_value(req.body.as_slice(), name.as_slice()) {
        Some(p) => p,
        None => {
            return Err(Reject::MissingPayloadField);
        },
    };
    match secret {
        Some(sec) => {
            let sighdr = match header_value(&req.headers, "signature") {
                Some(v) => v,
                None => {
                    return Err(Reject::BadSignature);
                },
            };
            if !signature_ok(sec.as_slice(), payload.as_slice(), sighdr.as_str()) {
                return Err(Reject::BadSignature);
            }
        },
        None => {},
    }
    if !parse_json_ok(payload.as_slice()) {
        return Err(Reject::MalformedPayload);
    }
    Ok(())
}

/// The fixed body of the not-found response.
pub open spec fn not_found_body() -> Seq<u8> {
    Seq::new("404: Not Found"@.len(), |i: int| "404: Not Found"@[i] as u8)
}

/// The fixed not-found response.
pub open spec fn not_found_model() -> ResponseModel {
    ResponseModel { status: STATUS_NOT_FOUND, body: not_found_body() }
}

fn not_found_bytes() -> (r: Vec<u8>)
    ensures
        r@ == not_found_body(),
{
    proof {
        reveal_strlit("404: Not Found");
    }
    let mut v: Vec<u8> = Vec::new();
    v.push('4' as u8);
    v.push('0' as u8);
    v.push('4' as u8);
    v.push(':' as u8);
    v.push(' ' as u8);
    v.push('N' as u8);
    v.push('o' as u8);
    v.push('t' as u8);
    v.push(' ' as u8);
    v.push('F' as u8);
    v.push('o' as u8);
    v.push('u' as u8);
    v.push('n' as u8);
    v.push('d' as u8);
    proof {
        assert(v@ =~= not_found_body());
    }
    v
}

/// Rewrite the dispatcher's no-route failure into the fixed not-found
/// response: the after-middleware of the request lifecycle.  Only the
/// no-route failure is intercepted; there is no other dispatch
/// failure.
pub fn catch(e: DispatchError) -> (resp: Response)
    ensures
        resp@ == not_found_model(),
{
    match e {
        DispatchError::NoRoute => Response { status: STATUS_NOT_FOUND, body: not_found_bytes() },
    }
}

/// The response for a static asset: its bytes when the collaborator
/// supplied them, the fixed not-found response when it did not.
pub open spec fn asset_model(asset: Option<Seq<u8>>) -> ResponseModel {
    match asset {
        Some(b) => ResponseModel { status: STATUS_OK, body: b },
        None => not_found_model(),
    }
}

/// Serve a static asset handed in by the collaborator that read it.
pub fn asset_response(asset: &Option<Vec<u8>>) -> (resp: Response)
    ensures
        resp@ == asset_model(bytes_view(*asset)),
{
    match asset {
        Some(b) => Response { status: STATUS_OK, body: b.clone() },
        None => Response { status: STATUS_NOT_FOUND, body: not_found_bytes() },
    }
}

/// The response of the source-control pipeline: an empty success, or
/// an empty client error on any rejection.
pub open spec fn github_model(secret: Option<Seq<u8>>, r: RequestModel) -> ResponseModel {
    ResponseModel {
        status: if github_eval(secret, r) is Ok {
            STATUS_OK
        } else {
            STATUS_BAD_REQUEST
        },
        body: Seq::empty(),
    }
}

/// Answer the source-control notifier.
pub fn github_response(secret: &Option<Vec<u8>>, req: &Request) -> (resp: Response)
    ensures
        resp@ == github_model(bytes_view(*secret), req@),
{
    match github_check(secret, req) {
        Ok(_) => Response { status: STATUS_OK, body: Vec::new() },
        Err(_) => Response { status: STATUS_BAD_REQUEST, body: Vec::new() },
    }
}

/// The response of the CI pipeline: an empty success, or an empty
/// client error on any rejection.
pub open spec fn travis_model(secret: Option<Seq<u8>>, r: RequestModel) -> ResponseModel {
    ResponseModel {
        status: if travis_eval(secret, r) is Ok {
            STATUS_OK
        } else {
            STATUS_BAD_REQUEST
        },
        body: Seq::empty(),
    }
}

/// Answer the CI notifier.
pub fn travis_response(secret: &Option<Vec<u8>>, req: &Request) -> (resp: Response)
    ensures
        resp@ == travis_model(bytes_view(*secret), req@),
{
    match travis_check(secret, req) {
        Ok(_) => Response { status: STATUS_OK, body: Vec::new() },
        Err(_) => Response { status: STATUS_BAD_REQUEST, body: Vec::new() },
    }
}

/// What the dispatcher returns for a request within the size cap: the
/// matched handler's response, or the no-route failure.
pub open spec fn dispatch_model(s: ServerModel, r: RequestModel) -> Result<
    ResponseModel,
    DispatchError,
> {
    match route_spec(r.method, r.path) {
        None => Err(DispatchError::NoRoute),
        Some(Route::Index) => Ok(asset_model(s.index_page)),
        Some(Route::Favicon) => Ok(asset_model(s.favicon)),
        Some(Route::Github) => Ok(github_model(s.github_secret, r)),
        Some(Route::Travis) => Ok(travis_model(s.travis_secret, r)),
    }
}

/// What the whole pipeline answers: the too-large status past the
/// size cap, before any route or handler is looked at; otherwise the
/// dispatcher's response, with a no-route failure rewritten into the
/// fixed not-found response.
pub open spec fn gateway_model(s: ServerModel, r: RequestModel) -> ResponseModel {
    if r.body.len() > MAX_BODY_LENGTH {
        ResponseModel { status: STATUS_PAYLOAD_TOO_LARGE, body: Seq::empty() }
    } else {
        match dispatch_model(s, r) {
            Ok(m) => m,
            Err(DispatchError::NoRoute) => not_found_model(),
        }
    }
}

impl Server {
    /// Dispatch one request through the fixed route table to its
    /// handler.
    pub fn dispatch(&self, req: &Request) -> (r: Result<Response, DispatchError>)
        ensures
            r matches Ok(resp) ==> dispatch_model(self@, req@) == Ok::<
                ResponseModel,
                DispatchError,
            >(resp@),
            r matches Err(e) ==> dispatch_model(self@, req@) == Err::<
                ResponseModel,
                DispatchError,
            >(e),
    {
        match route_of(req.method, req.path.as_str()) {
            None => Err(DispatchError::NoRoute),
            Some(Route::Index) => Ok(asset_response(&self.index_page)),
            Some(Route::Favicon) => Ok(asset_response(&self.favicon)),
            Some(Route::Github) => Ok(github_response(&self.github_secret, req)),
            Some(Route::Travis) => Ok(travis_response(&self.travis_secret, req)),
        }
    }

    /// Handle one request: enforce the body-size cap, dispatch, and
    /// normalize a no-route failure into the fixed not-found response.
    pub fn handle(&self, req: &Request) -> (resp: Response)
        ensures
            resp@ == gateway_model(self@, req@),
    {
        if req.body.len() > MAX_BODY_LENGTH {
            return Response { status: STATUS_PAYLOAD_TOO_LARGE, body: Vec::new() };
        }
        match self.dispatch(req) {
            Ok(resp) => resp,
            Err(e) => catch(e),
        }
    }
}

/// Repeating a request changes nothing: the pipeline keeps no
/// per-request state, so two requests with the same content get the
/// same response.
pub proof fn lemma_handle_idempotent(s: ServerModel, a: RequestModel, b: RequestModel)
    requires
        a == b,
    ensures
        gateway_model(s, a) == gateway_model(s, b),
{
}

/// A body over the size cap is turned away with the too-large status
/// before any route or handler is looked at, whatever the path and
/// method.
pub proof fn lemma_size_cap(s: ServerModel, r: RequestModel)
    requires
        r.body.len() > MAX_BODY_LENGTH,
    ensures
        gateway_model(s, r).status == STATUS_PAYLOAD_TOO_LARGE,
{
}

/// A request within the size cap to an unregistered method and path
/// pair gets exactly the fixed not-found response, never an internal
/// failure.
pub proof fn lemma_unrouted_not_found(s: ServerModel, r: RequestModel)
    requires
        r.body.len() <= MAX_BODY_LENGTH,
        route_spec(r.method, r.path) is None,
    ensures
        gateway_model(s, r) == not_found_model(),
{
}

} // verus!
