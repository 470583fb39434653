//! The faults that the gateway absorbs, and the response each one becomes.

use vstd::prelude::*;
use vstd::string::StringExecFns;
use crate::message::{text_response, GatewayResponse, ResponseView};
use crate::response::{
    not_found, not_found_response, plain_text, service_unavailable, service_unavailable_response,
    STATUS_BAD_REQUEST, STATUS_INTERNAL_SERVER_ERROR,
};

verus! {

/// What was wrong with the configuration when a request needed it.
#[derive(Clone, Copy, Debug, PartialEq, Eq, Structural)]
pub enum ConfigurationFault {
    /// No credential is configured for the hosted API.
    MissingCredential,
    /// The credential cannot stand in an `Authorization` header.
    InvalidCredential,
    /// The route's target address is not a URI.
    InvalidTargetAddress,
}

/// A fault met while handling one request. Each is answered with a response;
/// none leaves the gateway as a failure.
#[derive(Clone, Debug, PartialEq, Eq)]
pub enum GatewayError {
    /// No route claims the path.
    RoutingMiss,
    /// The route is known but the path names no operation of its backend.
    UnsupportedOperation,
    /// The downstream call could not be completed; the text says why.
    DownstreamUnavailable(String),
    /// The configuration does not allow the request to be forwarded.
    ConfigurationFault(ConfigurationFault),
}

/// The text that reports a configuration fault.
pub open spec fn fault_text(fault: ConfigurationFault) -> Seq<char> {
    match fault {
        ConfigurationFault::MissingCredential => "configuration error: no API key is configured"@,
        ConfigurationFault::InvalidCredential =>
            "configuration error: the API key cannot be sent in a header"@,
        ConfigurationFault::InvalidTargetAddress =>
            "configuration error: the target address is not a valid URI"@,
    }
}

/// The text sent when the downstream call failed for the given cause.
pub open spec fn unavailable_text(cause: Seq<char>) -> Seq<char> {
    "Failed to connect to downstream service. "@ + cause
}

/// The response that answers a fault.
pub open spec fn error_response(error: GatewayError) -> ResponseView {
    match error {
        GatewayError::RoutingMiss => not_found_response(),
        GatewayError::UnsupportedOperation => text_response(STATUS_BAD_REQUEST, "unsupported path"@),
        GatewayError::DownstreamUnavailable(cause) =>
            service_unavailable_response(unavailable_text(cause@)),
        GatewayError::ConfigurationFault(fault) =>
            text_response(STATUS_INTERNAL_SERVER_ERROR, fault_text(fault)),
    }
}

impl ConfigurationFault {
    /// The text that reports this fault.
    pub fn message(&self) -> (text: &'static str)
        ensures
            text@ == fault_text(*self),
    {
        match self {
            ConfigurationFault::MissingCredential => "configuration error: no API key is configured",
            ConfigurationFault::InvalidCredential =>
                "configuration error: the API key cannot be sent in a header",
            ConfigurationFault::InvalidTargetAddress =>
                "configuration error: the target address is not a valid URI",
        }
    }
}

impl GatewayError {
    /// Turns the fault into the response that the client receives.
    pub fn into_response(self) -> (response: GatewayResponse)
        ensures
            response@ == error_response(self),
    {
        match self {
            GatewayError::RoutingMiss => not_found(),
            GatewayError::UnsupportedOperation => plain_text(STATUS_BAD_REQUEST, "unsupported path"),
            GatewayError::DownstreamUnavailable(cause) => {
                let reason = "Failed to connect to downstream service. ".to_owned().concat(
                    cause.as_str(),
                );
                service_unavailable(reason.as_str())
            },
            GatewayError::ConfigurationFault(fault) => plain_text(
                STATUS_INTERNAL_SERVER_ERROR,
                fault.message(),
            ),
        }
    }
}

/// Each fault has its status: a routing miss 404, an unsupported operation a
/// client error, an unreachable downstream 503, a configuration fault a
/// server error. Every one is answered with a text body and no headers.
pub proof fn lemma_fault_statuses(error: GatewayError)
    ensures
        error is RoutingMiss ==> error_response(error).status == 404,
        error is UnsupportedOperation ==> error_response(error).status == 400,
        error is DownstreamUnavailable ==> error_response(error).status == 503,
        error is ConfigurationFault ==> error_response(error).status == 500,
        error_response(error).headers.len() == 0,
{
}

} // verus!
