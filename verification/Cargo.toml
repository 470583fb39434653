[package]
name = "api_gateway"
version = "0.1.0"
edition = "2021"
publish = false

[dependencies]
hyper = { version = "0.14", features = ["client", "server", "http1", "tcp"] }
tokio = { version = "1", features = ["rt", "macros"] }
wasmedge_hyper_rustls = "*"
wasmedge_rustls_api = "*"
serde = { version = "1", features = ["derive"] }
serde_yaml = "0.9"
