use api_gateway::{
    handle_llama_request, GatewayError, InboundRequest, LlamaOperation, ServiceConfig, ServiceType,
};

fn llama_route(prefix: &str) -> ServiceConfig {
    ServiceConfig { path: prefix.to_string(), ty: ServiceType::Llama2, target_service: String::new() }
}

fn request(path: &str) -> InboundRequest {
    InboundRequest {
        method: "POST".to_string(),
        path: path.to_string(),
        headers: Vec::new(),
        body: Vec::new(),
    }
}

#[test]
fn chat_completions_is_selected() {
    let outcome = handle_llama_request(&request("/llama/v1/chat/completions"), &llama_route("/llama/v1"));
    assert_eq!(outcome, Ok(LlamaOperation::ChatCompletions));
}

#[test]
fn completions_is_selected() {
    let outcome = handle_llama_request(&request("/llama/v1/completions"), &llama_route("/llama/v1"));
    assert_eq!(outcome, Ok(LlamaOperation::Completions));
}

#[test]
fn embeddings_is_selected() {
    let outcome = handle_llama_request(&request("/llama/v1/embeddings"), &llama_route("/llama/v1"));
    assert_eq!(outcome, Ok(LlamaOperation::Embeddings));
}

#[test]
fn models_is_selected() {
    let outcome = handle_llama_request(&request("/llama/v1/models"), &llama_route("/llama/v1"));
    assert_eq!(outcome, Ok(LlamaOperation::Models));
}

#[test]
fn operations_are_selected_under_any_prefix() {
    for prefix in ["", "/", "/x", "/chat", "/llama/v1/chat"] {
        for operation in [
            LlamaOperation::ChatCompletions,
            LlamaOperation::Completions,
            LlamaOperation::Embeddings,
            LlamaOperation::Models,
        ] {
            let path = format!("{}{}", prefix, operation.suffix());
            assert_eq!(handle_llama_request(&request(&path), &llama_route(prefix)), Ok(operation));
        }
    }
}

#[test]
fn suffixes_are_the_documented_ones() {
    assert_eq!(LlamaOperation::ChatCompletions.suffix(), "/chat/completions");
    assert_eq!(LlamaOperation::Completions.suffix(), "/completions");
    assert_eq!(LlamaOperation::Embeddings.suffix(), "/embeddings");
    assert_eq!(LlamaOperation::Models.suffix(), "/models");
}

#[test]
fn unknown_operation_is_unsupported() {
    let outcome = handle_llama_request(&request("/llama/v1/tokenize"), &llama_route("/llama/v1"));
    assert_eq!(outcome, Err(GatewayError::UnsupportedOperation));
}

#[test]
fn bare_prefix_is_unsupported() {
    let outcome = handle_llama_request(&request("/llama/v1"), &llama_route("/llama/v1"));
    assert_eq!(outcome, Err(GatewayError::UnsupportedOperation));
}

#[test]
fn longer_path_is_unsupported() {
    let outcome = handle_llama_request(&request("/llama/v1/models/7"), &llama_route("/llama/v1"));
    assert_eq!(outcome, Err(GatewayError::UnsupportedOperation));
    let outcome = handle_llama_request(&request("/llama/v1/models/"), &llama_route("/llama/v1"));
    assert_eq!(outcome, Err(GatewayError::UnsupportedOperation));
}

#[test]
fn suffix_not_directly_under_prefix_is_unsupported() {
    let outcome = handle_llama_request(&request("/llama/v1/x/models"), &llama_route("/llama/v1"));
    assert_eq!(outcome, Err(GatewayError::UnsupportedOperation));
}

#[test]
fn path_outside_prefix_is_unsupported() {
    let outcome = handle_llama_request(&request("/other/v1/models"), &llama_route("/llama/v1"));
    assert_eq!(outcome, Err(GatewayError::UnsupportedOperation));
}

#[test]
fn suffix_case_matters() {
    let outcome = handle_llama_request(&request("/llama/v1/Models"), &llama_route("/llama/v1"));
    assert_eq!(outcome, Err(GatewayError::UnsupportedOperation));
}
