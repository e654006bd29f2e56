[package]
name = "statserver"
version = "0.1.0"
edition = "2021"
publish = false

[dependencies]
anyhow = "*"
async-stream = "*"
futures = "*"
humantime-serde = "*"
log = "*"
pretty_env_logger = "*"
redis = { version = "*", features = ["tokio-comp", "connection-manager"] }
serde = { version = "*", features = ["derive"] }
serde_json = "*"
surrealdb = { version = "*", default-features = false, features = ["protocol-ws"] }
thiserror = "*"
tokio = { version = "*", features = ["full"] }
tokio-tungstenite = "*"
toml = "*"
