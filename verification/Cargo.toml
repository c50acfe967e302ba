[package]
name = "debug_mcp"
version = "0.1.0"
edition = "2021"
publish = false

[dependencies]
async-trait = "*"
base64 = "0.22"
futures = "0.3"
rmcp = { version = "*", features = ["server", "transport-io"] }
serde = { version = "1", features = ["derive"] }
serde_json = "1"
thiserror = "2"
tokio = { version = "1", features = ["full"] }
tokio-util = "0.7"
