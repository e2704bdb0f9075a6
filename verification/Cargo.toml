[package]
name = "rpc_gateway"
version = "0.1.0"
edition = "2021"
publish = false

[dependencies]
url = "=2.5.8"
serde = { version = "=1.0.229", features = ["derive"] }
serde_json = "=1.0.151"
hyper = { version = "=0.14.32", features = ["client", "http1", "http2", "tcp"] }
hyper-tls = "=0.5.0"
chrono = { version = "=0.4.45", features = ["serde"] }
axum = "=0.6.20"
async-trait = "=0.1.92"
futures-util = "=0.3.34"
