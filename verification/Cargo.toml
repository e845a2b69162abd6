[package]
name = "robustmq_handlers"
version = "0.1.0"
edition = "2021"
publish = false

[dependencies]
serde_json = "1"
tokio = { version = "1", default-features = false, features = ["macros", "sync", "time"] }
tracing = "0.1"
