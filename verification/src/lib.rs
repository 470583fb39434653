//! An API gateway core: path-prefix routing over an ordered service registry,
//! and the per-backend decisions that turn an inbound request into a response,
//! a downstream request to forward, or a local-inference operation to run.
//!
//! The crate decides; the embedding program performs the network and runtime
//! work and hands the outcomes back.

use vstd::prelude::*;

pub mod backend;
pub mod config;
pub mod error;
pub mod gateway;
pub mod http_syntax;
pub mod message;
pub mod openai;
pub mod response;
pub mod router;
pub mod text;

pub use backend::ggml::{handle_llama_request, LlamaOperation};
pub use config::{GatewayConfig, ServiceConfig, ServiceType};
pub use error::{ConfigurationFault, GatewayError};
pub use gateway::{dispatch, handle_request, Action};
pub use message::{DownstreamRequest, GatewayResponse, Header, InboundRequest, ResponseView};
pub use openai::{build_downstream_request, handle_openai_request, relay_downstream};
pub use response::{not_found, service_unavailable};
pub use router::{get_service_config, route};

verus! {

/// Process-wide state handed to request handlers.
#[derive(Clone, Debug)]
pub struct AppState {
    pub state_thing: String,
}

} // verus!
