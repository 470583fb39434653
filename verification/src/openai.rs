//! The passthrough dispatcher: proxies a request to a hosted completion API,
//! adding the bearer credential. The network call itself is the caller's; this
//! module builds what is sent and decides what is answered.

use vstd::prelude::*;
use vstd::string::StringExecFns;
use crate::config::ServiceConfig;
use crate::error::{error_response, unavailable_text, ConfigurationFault, GatewayError};
use crate::http_syntax::{is_header_value, is_target_address, parse_header_value, parse_uri};
use crate::message::{DownstreamRequest, DownstreamView, GatewayResponse, Header, InboundRequest};
use crate::response::service_unavailable_response;

verus! {

/// The value of the `Authorization` header for an API key.
pub open spec fn bearer_token(api_key: Seq<char>) -> Seq<char> {
    "Bearer "@ + api_key
}

/// The request that goes downstream: the target address as written, the
/// inbound method and body untouched, and exactly two headers.
pub open spec fn downstream_request(
    req: InboundRequest,
    target: Seq<char>,
    auth_token: Seq<char>,
) -> DownstreamView {
    DownstreamView {
        uri: target,
        method: req.method@,
        headers: seq![("Content-Type"@, "application/json"@), ("Authorization"@, auth_token)],
        body: req.body@,
    }
}

/// Why no request can be built, if none can: the target address is judged
/// first, then the token.
pub open spec fn build_fault(
    target_accepted: bool,
    auth_token: Seq<char>,
) -> Option<ConfigurationFault> {
    if !target_accepted {
        Some(ConfigurationFault::InvalidTargetAddress)
    } else if !is_header_value(auth_token) {
        Some(ConfigurationFault::InvalidCredential)
    } else {
        None
    }
}

/// What building the downstream request must yield, given whether the target
/// address was accepted as a URI: the request if both the address and the
/// token are fit to send, else the fault.
pub open spec fn is_build_outcome(
    req: InboundRequest,
    service_config: ServiceConfig,
    auth_token: Seq<char>,
    target_accepted: bool,
    outcome: Result<DownstreamRequest, GatewayError>,
) -> bool {
    match build_fault(target_accepted, auth_token) {
        Some(fault) => outcome == Err::<DownstreamRequest, GatewayError>(
            GatewayError::ConfigurationFault(fault),
        ),
        None => outcome matches Ok(downstream) && downstream@ == downstream_request(
            req,
            service_config.target_service@,
            auth_token,
        ),
    }
}

/// Builds the downstream request once the target address has been judged.
pub fn assemble_downstream_request(
    req: InboundRequest,
    service_config: &ServiceConfig,
    auth_token: String,
    target_accepted: bool,
) -> (outcome: Result<DownstreamRequest, GatewayError>)
    ensures
        is_build_outcome(req, *service_config, auth_token@, target_accepted, outcome),
{
    if !target_accepted {
        return Err(GatewayError::ConfigurationFault(ConfigurationFault::InvalidTargetAddress));
    }
    if !parse_header_value(auth_token.as_str()) {
        return Err(GatewayError::ConfigurationFault(ConfigurationFault::InvalidCredential));
    }
    let mut headers: Vec<Header> = Vec::new();
    headers.push(Header { name: "Content-Type".to_owned(), value: "application/json".to_owned() });
    headers.push(Header { name: "Authorization".to_owned(), value: auth_token });
    let downstream = DownstreamRequest {
        uri: service_config.target_service.clone(),
        method: req.method,
        headers,
        body: req.body,
    };
    assert(downstream@.headers =~= downstream_request(
        req,
        service_config.target_service@,
        auth_token@,
    ).headers);
    Ok(downstream)
}

/// Builds the request to forward for `req`: its URI is the route's target
/// address verbatim, its method and body are those of `req`, and its headers
/// are `Content-Type: application/json` and `Authorization: <auth_token>`.
/// Nothing is built from a target address that is empty or no URI, or from a
/// token that no header can carry.
pub fn build_downstream_request(
    req: InboundRequest,
    service_config: &ServiceConfig,
    auth_token: String,
) -> (outcome: Result<DownstreamRequest, GatewayError>)
    ensures
        is_build_outcome(
            req,
            *service_config,
            auth_token@,
            is_target_address(service_config.target_service@),
            outcome,
        ),
{
    let target_accepted = parse_uri(service_config.target_service.as_str());
    assemble_downstream_request(req, service_config, auth_token, target_accepted)
}

/// Why the passthrough dispatcher forwards nothing, if it does not: no
/// credential, or a request that cannot be built with it.
pub open spec fn openai_fault(
    service_config: ServiceConfig,
    api_key: Option<Seq<char>>,
) -> Option<ConfigurationFault> {
    match api_key {
        None => Some(ConfigurationFault::MissingCredential),
        Some(key) => build_fault(
            is_target_address(service_config.target_service@),
            bearer_token(key),
        ),
    }
}

/// What the passthrough dispatcher must yield before anything is sent.
pub open spec fn is_openai_outcome(
    req: InboundRequest,
    service_config: ServiceConfig,
    api_key: Option<Seq<char>>,
    outcome: Result<DownstreamRequest, GatewayError>,
) -> bool {
    match openai_fault(service_config, api_key) {
        Some(fault) => outcome == Err::<DownstreamRequest, GatewayError>(
            GatewayError::ConfigurationFault(fault),
        ),
        None => outcome matches Ok(downstream) && downstream@ == downstream_request(
            req,
            service_config.target_service@,
            bearer_token(api_key->0),
        ),
    }
}

/// The text of an optional key.
pub open spec fn key_view(api_key: Option<&str>) -> Option<Seq<char>> {
    match api_key {
        None => None,
        Some(key) => Some(key@),
    }
}

/// Prepares the request to the hosted API for `req`. Without a credential
/// nothing is forwarded: the outcome is the configuration fault.
pub fn handle_openai_request(
    req: InboundRequest,
    service_config: &ServiceConfig,
    api_key: Option<&str>,
) -> (outcome: Result<DownstreamRequest, GatewayError>)
    ensures
        is_openai_outcome(req, *service_config, key_view(api_key), outcome),
{
    match api_key {
        None => Err(GatewayError::ConfigurationFault(ConfigurationFault::MissingCredential)),
        Some(key) => {
            let auth_token = "Bearer ".to_owned().concat(key);
            build_downstream_request(req, service_config, auth_token)
        },
    }
}

/// The response for the client once the downstream call has ended: the
/// downstream response exactly as it came, or, if the call failed, status 503
/// with a text that carries the cause. No outcome of the call is a failure of
/// the gateway.
pub fn relay_downstream(forwarded: Result<GatewayResponse, String>) -> (response: GatewayResponse)
    ensures
        match forwarded {
            Ok(downstream) => response == downstream,
            Err(cause) => {
                &&& response.status == 503
                &&& response@ == service_unavailable_response(unavailable_text(cause@))
                &&& response@ == error_response(GatewayError::DownstreamUnavailable(cause))
            },
        },
{
    match forwarded {
        Ok(downstream) => downstream,
        Err(cause) => GatewayError::DownstreamUnavailable(cause).into_response(),
    }
}

} // verus!
