[package]
name = "agentic_core"
version = "0.1.0"
edition = "2021"
publish = false

[dependencies]
serde_json = { version = "1", features = ["float_roundtrip"] }
serde = { version = "1", features = ["derive"] }
indexmap = "2"
chrono = { version = "0.4", default-features = false, features = ["clock", "std"] }
base64 = "0.22"
ring = "0.17"
rmcp = { version = "*", default-features = false }
tokio = { version = "1", features = ["sync", "rt", "macros", "time"] }
tokio-util = "0.7"
futures = "0.3"
reqwest = { version = "0.12", default-features = false, features = ["json", "stream"] }
axum = { version = "0.8", features = ["ws"] }
bytes = "1"
either = "1"
thiserror = "2"
tracing = "0.1"
