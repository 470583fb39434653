//! Responses that the gateway makes up itself.

use vstd::prelude::*;
use vstd::string::StrSliceExecFns;
use crate::message::{text_response, GatewayResponse, ResponseView};

verus! {

pub const STATUS_OK: u16 = 200;

pub const STATUS_BAD_REQUEST: u16 = 400;

pub const STATUS_NOT_FOUND: u16 = 404;

pub const STATUS_INTERNAL_SERVER_ERROR: u16 = 500;

pub const STATUS_SERVICE_UNAVAILABLE: u16 = 503;

/// Builds a response with no headers whose body is the bytes of `text`.
pub fn plain_text(status: u16, text: &str) -> (response: GatewayResponse)
    ensures
        response@ == text_response(status, text@),
{
    let response = GatewayResponse { status, headers: Vec::new(), body: text.as_bytes_vec() };
    assert(response@.headers =~= Seq::empty());
    response
}

/// The answer to a path that no service claims.
pub open spec fn not_found_response() -> ResponseView {
    text_response(STATUS_NOT_FOUND, "404 Not Found"@)
}

/// The answer when the downstream service could not be reached.
pub open spec fn service_unavailable_response(reason: Seq<char>) -> ResponseView {
    text_response(STATUS_SERVICE_UNAVAILABLE, reason)
}

/// The response to a path that no service claims: status 404 and a plain
/// text body.
pub fn not_found() -> (response: GatewayResponse)
    ensures
        response@ == not_found_response(),
{
    plain_text(STATUS_NOT_FOUND, "404 Not Found")
}

/// The response when the downstream service could not be reached: status 503
/// and `reason` as its body.
pub fn service_unavailable(reason: &str) -> (response: GatewayResponse)
    ensures
        response@ == service_unavailable_response(reason@),
{
    plain_text(STATUS_SERVICE_UNAVAILABLE, reason)
}

} // verus!
