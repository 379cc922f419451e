[package]
name = "opensea_stream"
version = "0.1.0"
edition = "2021"
publish = false

[dependencies]
url = "*"
serde_json = "*"
phyllo = "*"
anyhow = "*"
tokio = { version = "*", features = ["sync", "rt-multi-thread", "macros"] }
tokio-stream = { version = "*", features = ["sync"] }
