[package]
name = "flows_host"
version = "0.1.0"
edition = "2021"
publish = false

[dependencies]
serde_json = "1"
rustls = "0.21"
webpki-roots = "0.25"
axum = "0.6"
tokio = { version = "1", features = ["full"] }
tokio-rustls = "0.24"
clap = { version = "4", features = ["derive"] }
libc = "0.2"
wasmedge-sdk = { version = "0.14", features = ["async"] }
