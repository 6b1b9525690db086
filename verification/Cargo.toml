[package]
name = "rust_async_queue"
version = "0.1.0"
edition = "2021"
publish = false

[dependencies]
async-channel = "2"
async-trait = "0.1"
log = "0.4"
proc-macro-error = "1"
proc-macro2 = "1"
quote = "1"
redis = { version = "0.23", features = ["tokio-comp", "connection-manager"] }
serde = { version = "1", features = ["derive"] }
serde_json = { version = "1", features = ["raw_value"] }
syn = { version = "2", features = ["full", "extra-traits"] }
thiserror = "1"
tokio = { version = "1", features = ["full"] }
tracing = "0.1"
uuid = { version = "1", features = ["v4"] }
