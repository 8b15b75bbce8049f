[package]
name = "gcp_auth"
version = "0.1.0"
edition = "2021"
publish = false

[dependencies]
async-trait = "0.1"
hyper = { version = "0.14", features = ["client", "http1", "http2", "runtime"] }
hyper-rustls = { version = "0.24", default-features = false, features = ["http1", "http2", "native-tokio"] }
ring = "0.16"
rustls-pemfile = "1"
serde = { version = "1", features = ["derive", "rc"] }
serde_json = "1"
tokio = { version = "1", features = ["rt", "sync"] }
tracing = "0.1"
zeroize = "1"
