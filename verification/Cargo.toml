[package]
name = "qqbot_sdk"
version = "0.1.0"
edition = "2021"
publish = false

[dependencies]
percent-encoding = "2"
serde = { version = "1", features = ["derive"] }
serde_json = "1"
tokio = { version = "1", features = ["sync", "rt", "macros", "net", "fs", "signal"] }
axum = "0.7"
http = "1"
bytes = "1"
reqwest = { version = "0.12", default-features = false, features = ["json"] }
async-trait = "0.1"
tracing = "0.1"
tracing-subscriber = { version = "0.3", features = ["env-filter"] }
once_cell = "1"
inventory = "0.3"
