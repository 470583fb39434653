//! The entrypoint: routes one request and lets the route's dispatcher decide
//! what happens next. Each request ends in exactly one response; a path that
//! no route claims ends in one without anything being sent anywhere.

use vstd::prelude::*;
use crate::backend::ggml::{
    handle_llama_request, lemma_operation_routes, llama_outcome, LlamaOperation,
};
use crate::config::{GatewayConfig, ServiceConfig, ServiceType};
use crate::error::{error_response, GatewayError};
use crate::message::{text_response, DownstreamRequest, GatewayResponse, InboundRequest, ResponseView};
use crate::openai::{
    bearer_token, downstream_request, handle_openai_request, key_view, openai_fault,
};
use crate::response::{not_found_response, plain_text, STATUS_OK};
use crate::router::{is_first_claim, lemma_first_claim_unique, no_claim, route};

verus! {

/// What is to be done for a request once the gateway has decided.
#[derive(Clone, Debug, PartialEq, Eq)]
pub enum Action {
    /// Answer the client with this response. Nothing goes downstream.
    Respond(GatewayResponse),
    /// Send this request downstream; [`crate::openai::relay_downstream`]
    /// turns what comes of it into the response.
    Forward(DownstreamRequest),
    /// Run this operation of the model runtime on the request and answer with
    /// its output as it is.
    Infer { operation: LlamaOperation, request: InboundRequest },
}

/// The answer of the diagnostic backend.
pub open spec fn echo_response() -> ResponseView {
    text_response(STATUS_OK, "echo test"@)
}

/// The action is to answer with a response that reads `view`.
pub open spec fn responds_with(action: Action, view: ResponseView) -> bool {
    action matches Action::Respond(response) && response@ == view
}

/// The action that a route's dispatcher takes for a request.
pub open spec fn is_dispatch(
    req: InboundRequest,
    service_config: ServiceConfig,
    api_key: Option<Seq<char>>,
    action: Action,
) -> bool {
    match service_config.ty {
        ServiceType::Test => responds_with(action, echo_response()),
        ServiceType::Llama2 => match llama_outcome(req.path@, service_config.path@) {
            Ok(operation) => action == (Action::Infer { operation, request: req }),
            Err(error) => responds_with(action, error_response(error)),
        },
        ServiceType::Openai => match openai_fault(service_config, api_key) {
            Some(fault) => responds_with(
                action,
                error_response(GatewayError::ConfigurationFault(fault)),
            ),
            None => action matches Action::Forward(downstream) && downstream@ == downstream_request(
                req,
                service_config.target_service@,
                bearer_token(api_key->0),
            ),
        },
    }
}

/// Hands `req` to the dispatcher of the route's backend. A fault of the
/// dispatcher becomes the response that answers it.
pub fn dispatch(
    req: InboundRequest,
    service_config: &ServiceConfig,
    api_key: Option<&str>,
) -> (action: Action)
    ensures
        is_dispatch(req, *service_config, key_view(api_key), action),
{
    match service_config.ty {
        ServiceType::Openai => match handle_openai_request(req, service_config, api_key) {
            Ok(downstream) => Action::Forward(downstream),
            Err(error) => Action::Respond(error.into_response()),
        },
        ServiceType::Llama2 => match handle_llama_request(&req, service_config) {
            Ok(operation) => Action::Infer { operation, request: req },
            Err(error) => Action::Respond(error.into_response()),
        },
        ServiceType::Test => Action::Respond(plain_text(STATUS_OK, "echo test")),
    }
}

/// What the entrypoint decides for a request over a registry: the not-found
/// response when no route claims the path, else what the dispatcher of the
/// first route that claims it decides.
pub open spec fn is_handled(
    req: InboundRequest,
    services: Seq<ServiceConfig>,
    api_key: Option<Seq<char>>,
    action: Action,
) -> bool {
    &&& no_claim(req.path@, services) ==> responds_with(action, not_found_response())
    &&& forall|i: int| #[trigger]
        is_first_claim(req.path@, services, i) ==> is_dispatch(req, services[i], api_key, action)
}

/// Decides what is done for `req`: the not-found response when no route
/// claims its path, else whatever the dispatcher of the first route that
/// claims it decides.
pub fn handle_request(
    req: InboundRequest,
    config: &GatewayConfig,
    api_key: Option<&str>,
) -> (action: Action)
    ensures
        is_handled(req, config.services@, key_view(api_key), action),
{
    match route(req.path.as_str(), config.services.as_slice()) {
        Ok(service_config) => {
            proof {
                let i = choose|i: int|
                    #[trigger] is_first_claim(req.path@, config.services@, i) && *service_config
                        == config.services@[i];
                assert forall|j: int| #[trigger]
                    is_first_claim(req.path@, config.services@, j) implies j == i by {
                    lemma_first_claim_unique(req.path@, config.services@, i, j);
                }
            }
            dispatch(req, service_config, api_key)
        },
        Err(error) => Action::Respond(error.into_response()),
    }
}

/// A path that no route claims is answered with status 404 and the not-found
/// text, and with nothing else: no request is forwarded and no operation run.
pub proof fn lemma_unclaimed_path_is_not_found(
    req: InboundRequest,
    services: Seq<ServiceConfig>,
    api_key: Option<Seq<char>>,
    action: Action,
)
    requires
        is_handled(req, services, api_key, action),
        no_claim(req.path@, services),
    ensures
        action is Respond,
        action->Respond_0.status == 404,
        action->Respond_0@ == text_response(404, "404 Not Found"@),
{
}

/// Whatever the entrypoint forwards goes to a hosted-API route and is
/// faithful to it and to the request: the URI is the route's target address as
/// written, the `Authorization` header is `Bearer ` followed by the configured
/// key, and method and body are the inbound ones.
pub proof fn lemma_forwarded_request_is_faithful(
    req: InboundRequest,
    services: Seq<ServiceConfig>,
    api_key: Option<Seq<char>>,
    action: Action,
    i: int,
)
    requires
        is_handled(req, services, api_key, action),
        is_first_claim(req.path@, services, i),
        action is Forward,
    ensures
        services[i].ty == ServiceType::Openai,
        api_key is Some,
        action->Forward_0.uri@ == services[i].target_service@,
        action->Forward_0.method@ == req.method@,
        action->Forward_0.body@ == req.body@,
        action->Forward_0@.headers.len() == 2,
        action->Forward_0@.headers[0] == ("Content-Type"@, "application/json"@),
        action->Forward_0@.headers[1] == ("Authorization"@, "Bearer "@ + api_key->0),
{
}

/// A route of the model runtime runs exactly the operation that the path
/// names under the route's prefix, on the request as it came; a path that
/// names none is answered with a client error.
pub proof fn lemma_inference_follows_the_path(
    req: InboundRequest,
    services: Seq<ServiceConfig>,
    api_key: Option<Seq<char>>,
    action: Action,
    i: int,
)
    requires
        is_handled(req, services, api_key, action),
        is_first_claim(req.path@, services, i),
        services[i].ty == ServiceType::Llama2,
    ensures
        forall|operation: LlamaOperation|
            req.path@ == services[i].path@ + operation.path_suffix() ==> action == (Action::Infer {
                operation,
                request: req,
            }),
        (forall|operation: LlamaOperation|
            req.path@ != services[i].path@ + operation.path_suffix()) ==> action is Respond
            && 400 <= action->Respond_0.status < 500,
{
    assert forall|operation: LlamaOperation|
        req.path@ == services[i].path@ + operation.path_suffix() implies action == (Action::Infer {
        operation,
        request: req,
    }) by {
        lemma_operation_routes(req.path@, services[i].path@, operation);
    }
}

} // verus!
