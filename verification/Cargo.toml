[package]
name = "est"
version = "0.1.0"
edition = "2021"
publish = false

[dependencies]
tokio = { version = "*", features = ["full"] }
tokio-util = { version = "*", features = ["full"] }
serde = { version = "*", features = ["derive"] }
ron = "*"
anyhow = "*"
