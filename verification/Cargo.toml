[package]
name = "barter_data"
version = "0.1.0"
edition = "2021"
publish = false

[dependencies]
async-trait = "=0.1.92"
barter-integration = "=0.12.0"
futures = "=0.3.34"
serde = { version = "=1.0.229", features = ["derive"] }
serde_json = "=1.0.154"
tokio-tungstenite = "=0.26.2"
tracing = "=0.1.44"
