[package]
name = "gremlin_bridge"
version = "0.1.0"
edition = "2021"
publish = false

[dependencies]
gremlin-client = { version = "*", features = ["tokio-runtime"] }
serde = { version = "*", features = ["derive"] }
serde_json = "*"
tokio = { version = "*", features = ["sync", "rt", "macros"] }
futures = "*"
uuid = "*"
chrono = "*"
