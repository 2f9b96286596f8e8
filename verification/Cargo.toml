[package]
name = "firepilot"
version = "1.1.0"
edition = "2021"
publish = false

[dependencies]
hyper = { version = "0.14", features = ["client", "http1"] }
hyperlocal = "0.8"
log = "0.4"
serde = { version = "1", features = ["derive"] }
serde_json = "1"
thiserror = "1"
tokio = { version = "1", features = ["process", "time"] }
tracing = "0.1"
uuid = { version = "1", features = ["v4"] }
