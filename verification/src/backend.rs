//! The backends that the gateway serves without a downstream HTTP call.

pub mod ggml;
