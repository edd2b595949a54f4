//! The per-request handlers and the forwarder they share.
//!
//! A worker owns one client connection and serves exactly one request on it.
//! The transport acts — resolving the host, opening the origin connection,
//! writing the request and reading the response — happen at the connection,
//! outside this library; their outcomes are handed in as a
//! [`ForwardOutcome`], and everything the proxy decides from them is verified
//! here: which response reaches the client, and what enters the cache.

use vstd::prelude::*;
use crate::cache::HTTPCache;
use crate::message::{
    error_response, extend_header_value, make_http_error, Request, RequestId, RequestModel,
    Response, ResponseModel,
};

verus! {

/// The status the proxy answers with when the origin transport fails.
pub const BAD_GATEWAY: u16 = 502;

/// How the forwarding transport ended: the write of the request to the origin
/// failed; the write succeeded but reading or parsing the response failed; or
/// the origin's response arrived whole.
pub enum ForwardOutcome {
    WriteFailed,
    ReadFailed,
    Delivered(Response),
}

/// Model of a forward outcome.
pub enum ForwardOutcomeModel {
    WriteFailed,
    ReadFailed,
    Delivered(ResponseModel),
}

impl View for ForwardOutcome {
    type V = ForwardOutcomeModel;

    open spec fn view(&self) -> ForwardOutcomeModel {
        match self {
            ForwardOutcome::WriteFailed => ForwardOutcomeModel::WriteFailed,
            ForwardOutcome::ReadFailed => ForwardOutcomeModel::ReadFailed,
            ForwardOutcome::Delivered(res) => ForwardOutcomeModel::Delivered(res@),
        }
    }
}

/// The response the client receives for a forward outcome: a whole origin
/// response is relayed unmodified, and either transport failure is translated
/// into a synthesized `502 Bad Gateway` — never a partial or truncated body.
pub open spec fn forward_result_spec(o: ForwardOutcomeModel) -> ResponseModel {
    match o {
        ForwardOutcomeModel::WriteFailed => error_response(BAD_GATEWAY),
        ForwardOutcomeModel::ReadFailed => error_response(BAD_GATEWAY),
        ForwardOutcomeModel::Delivered(res) => res,
    }
}

/// Turns the outcome of one forwarding attempt into the response the client
/// will receive. Every origin failure is terminal for the request: no retry,
/// and the failure is surfaced uniformly as a synthesized `502 Bad Gateway`
/// whose body is empty, so the client never sees a partial or garbled body.
pub fn forward_request_and_return_response(outcome: ForwardOutcome) -> (r: Response)
    ensures
        r@ == forward_result_spec(outcome@),
        outcome@ is WriteFailed ==> r@ == error_response(BAD_GATEWAY),
        outcome@ is ReadFailed ==> r@ == error_response(BAD_GATEWAY),
        (outcome@ matches ForwardOutcomeModel::Delivered(res) ==> r@ == res),
{
    match outcome {
        ForwardOutcome::WriteFailed => make_http_error(BAD_GATEWAY),
        ForwardOutcome::ReadFailed => make_http_error(BAD_GATEWAY),
        ForwardOutcome::Delivered(res) => res,
    }
}

/// The header every handler stamps onto the request before forwarding.
pub open spec fn x_forwarded_for() -> Seq<char> {
    "x-forwarded-for"@
}

/// Stamps the client's address onto the request as an `x-forwarded-for`
/// header, the first step of every handler; the rest of the request is
/// unchanged.
pub fn stamp_forwarded_for(req: &mut Request, client_ip: &str)
    ensures
        final(req)@ == (RequestModel {
            headers: old(req)@.headers.push((x_forwarded_for(), client_ip@)),
            ..old(req)@
        }),
{
    extend_header_value(req, "x-forwarded-for", client_ip);
}

/// What one whole GET critical section leaves in the cache: on a hit the
/// cache is untouched; on a miss the forwarded response is stored under the
/// request's identity.
pub open spec fn get_step_cache(
    c: Map<RequestId, ResponseModel>,
    id: RequestId,
    o: ForwardOutcomeModel,
) -> Map<RequestId, ResponseModel> {
    if c.contains_key(id) {
        c
    } else {
        c.insert(id, forward_result_spec(o))
    }
}

/// What one whole GET critical section answers the client: the stored
/// response on a hit, the (translated) forward result on a miss.
pub open spec fn get_step_response(
    c: Map<RequestId, ResponseModel>,
    id: RequestId,
    o: ForwardOutcomeModel,
) -> ResponseModel {
    if c.contains_key(id) {
        c[id]
    } else {
        forward_result_spec(o)
    }
}

/// The check-then-read half of the GET handler's critical section: the stored
/// response exactly when the cache holds the request's identity. Because the
/// check and the read run against the same locked cache, the read cannot come
/// back empty after a successful check.
pub fn handle_get_lookup(cache: &HTTPCache, req: &Request) -> (r: Option<Response>)
    ensures
        match r {
            Some(res) => cache@.contains_key(req@.id()) && res@ == cache@[req@.id()],
            None => !cache@.contains_key(req@.id()),
        },
{
    if cache.contains_entry(req) {
        match cache.get_cached_response(req) {
            Some(cached_res) => Some(cached_res),
            // The check and the read ran under one lock against the same
            // cache, so a read after a successful check cannot miss.
            None => vstd::pervasive::unreached(),
        }
    } else {
        None
    }
}

/// The store half of the GET handler's critical section, run when the lookup
/// missed: translates the forward outcome, stores the resulting response
/// under the request's identity, and returns it as the client's response.
pub fn handle_get_forwarded(cache: &mut HTTPCache, req: &Request, outcome: ForwardOutcome) -> (r:
    Response)
    ensures
        r@ == forward_result_spec(outcome@),
        final(cache)@ == old(cache)@.insert(req@.id(), r@),
        outcome@ is WriteFailed ==> r@ == error_response(BAD_GATEWAY),
        outcome@ is ReadFailed ==> r@ == error_response(BAD_GATEWAY),
        !old(cache)@.contains_key(req@.id()) ==> final(cache)@ == get_step_cache(
            old(cache)@,
            req@.id(),
            outcome@,
        ) && r@ == get_step_response(old(cache)@, req@.id(), outcome@),
{
    let res = forward_request_and_return_response(outcome);
    cache.add_entry(req, &res);
    res
}

/// The POST handler's decision: relay the forward outcome to the client. It
/// takes no cache — POST responses are never read from nor written to the
/// cache, however often the request repeats.
pub fn handle_post(_req: &Request, outcome: ForwardOutcome) -> (r: Response)
    ensures
        r@ == forward_result_spec(outcome@),
        outcome@ is WriteFailed ==> r@ == error_response(BAD_GATEWAY),
        outcome@ is ReadFailed ==> r@ == error_response(BAD_GATEWAY),
{
    forward_request_and_return_response(outcome)
}

/// The HEAD handler's decision: identical to POST — relay the forward
/// outcome, with no cache interaction.
pub fn handle_head(_req: &Request, outcome: ForwardOutcome) -> (r: Response)
    ensures
        r@ == forward_result_spec(outcome@),
        outcome@ is WriteFailed ==> r@ == error_response(BAD_GATEWAY),
        outcome@ is ReadFailed ==> r@ == error_response(BAD_GATEWAY),
{
    forward_request_and_return_response(outcome)
}

} // verus!
