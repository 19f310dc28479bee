[package]
name = "beevulyk_grpc_extensions"
version = "0.1.0"
edition = "2021"
publish = false

[dependencies]
tonic = "0.14"
tokio = { version = "1", features = ["sync", "time", "rt", "macros"] }
futures = "0.3"
futures-core = "0.3"
futures-util = "0.3"
async-trait = "0.1"
thiserror = "2"
tracing = "0.1"
