[package]
name = "punktfunk_core"
version = "0.1.0"
edition = "2021"
publish = false

[dependencies]
serde_json = "1"
libc = "0.2"
opus = "0.3"
quinn = "0.11"
tokio = { version = "1", features = ["rt", "sync", "time", "macros"] }
tracing = "0.1"
