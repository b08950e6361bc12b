[package]
name = "authflow"
version = "0.1.0"
edition = "2021"
publish = false

[dependencies]
rand = "0.8"
axum = "0.7"
serde = { version = "1", features = ["derive"] }
serde_json = "1"
tower-cookies = "0.10"
tracing = "0.1"
rpc-router = "*"
