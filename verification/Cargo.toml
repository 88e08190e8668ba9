[package]
name = "ebb"
version = "0.1.0"
edition = "2021"
publish = false

[dependencies]
rand = "*"
serde = { version = "*", features = ["derive"] }
serde_json = "*"
tokio = { version = "*", features = ["rt-multi-thread", "sync", "net", "macros", "time"] }
axum = { version = "*", features = ["ws"] }
futures-util = { version = "*", features = ["sink"] }
csv = "*"
toml = "*"
