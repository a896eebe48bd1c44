[package]
name = "ledger_envelope"
version = "0.1.0"
edition = "2021"
publish = false

[dependencies]
anyhow = "1"
bcs = "0.1"
reqwest = { version = "0.11", default-features = false }
serde = { version = "1", features = ["derive"] }
serde_json = "1"
tokio = { version = "1", features = ["macros", "rt", "time"] }
warp = { version = "0.3", default-features = false }
