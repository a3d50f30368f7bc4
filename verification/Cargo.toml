[package]
name = "vllm_responses"
version = "0.1.0"
edition = "2021"
publish = false

[dependencies]
asynk-strim-attr = "*"
axum = "0.8"
futures = "0.3"
llm-multimodal = "*"
serde = { version = "1", features = ["derive"] }
serde_json = { version = "1", features = ["preserve_order"] }
serde_with = "3"
thiserror-ext = "*"
tracing = "0.1"
tracing-futures = { version = "0.2", features = ["futures-03"] }
uuid = { version = "1", features = ["v4"] }
validator = { version = "0.20", features = ["derive"] }
winnow = "0.7"
