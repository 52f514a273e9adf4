[package]
name = "scanner"
version = "0.1.0"
edition = "2021"
publish = false

[dependencies]
rxing = "*"
serde_json = "*"
thiserror = "*"
tokio = { version = "*", features = ["rt-multi-thread", "macros", "sync"] }
poem = { version = "*", features = ["websocket", "static-files"] }
futures-util = "*"
v4l = "*"
tracing-subscriber = "*"
