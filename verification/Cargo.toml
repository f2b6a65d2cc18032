[package]
name = "rust_poc_ai_model_comparison"
version = "0.1.0"
edition = "2021"
publish = false

[dependencies]
axum = "0.8"
http-body-util = "0.1"
hyper-util = { version = "0.1", features = ["client-legacy", "http1", "http2", "tokio"] }
serde = { version = "1", features = ["derive"] }
serde_json = "1"
async-trait = "0.1"
