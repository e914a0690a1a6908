[package]
name = "chunked_migration"
version = "0.1.0"
edition = "2021"
publish = false

[dependencies]
anyhow = "1"
serde = { version = "1", features = ["derive"] }
tokio = { version = "1", default-features = false, features = ["sync", "time"] }
tracing = { version = "0.1", default-features = false }
web3 = { version = "0.19", default-features = false }
