[package]
name = "rust_miner"
version = "0.1.0"
edition = "2021"
publish = false

[dependencies]
anyhow = "1"
hex = "0.4"
rand = "0.8"
reqwest = { version = "0.12", features = ["json"] }
serde = { version = "1", features = ["derive"] }
serde_yaml = "0.9"
sha1 = "0.10"
tokio = { version = "1", features = ["rt-multi-thread", "macros", "net", "io-util", "time"] }
