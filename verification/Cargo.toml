[package]
name = "zoo_server"
version = "0.1.0"
edition = "2021"
publish = false

[dependencies]
anyhow = "*"
axum = "*"
rmcp = { version = "*", features = ["server", "transport-streamable-http-server"] }
serde = { version = "*", features = ["derive"] }
serde_json = "*"
tokio = { version = "*", features = ["macros", "net", "rt-multi-thread", "signal"] }
tracing-subscriber = { version = "*", features = ["env-filter"] }
