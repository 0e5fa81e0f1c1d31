[package]
name = "oxidhome_core"
version = "0.2.0"
edition = "2021"
publish = false

[dependencies]
anyhow = "1"
axum = { version = "0.8", features = ["ws"] }
base64 = "0.22"
bytes = "1"
connectrpc = { version = "*", features = ["axum"] }
futures-util = "0.3"
http-body = "1"
http-body-util = "0.1"
libc = "0.2"
rmcp = { version = "*", features = ["server", "transport-io", "transport-streamable-http-server"] }
serde = { version = "1", features = ["derive"] }
serde_json = "1"
serde_urlencoded = "0.7"
sha2 = "0.10"
thiserror = "2"
tokio = { version = "1", features = ["full"] }
toml = "*"
tracing = "0.1"
