[package]
name = "input_capture"
version = "0.1.0"
edition = "2021"
publish = false

[dependencies]
futures = "0.3"
serde = { version = "1", features = ["derive"] }
tokio = { version = "1", features = ["rt", "sync", "macros", "rt-multi-thread"] }
tracing = "0.1"
zbus = { version = "5", default-features = false, features = ["tokio"] }
