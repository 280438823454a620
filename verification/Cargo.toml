[package]
name = "chainhook_event_observer"
version = "0.1.0"
edition = "2021"
publish = false

[dependencies]
base58 = "=0.2.0"
bitcoincore-rpc = "=0.16.0"
chainhook-types = "=1.0.0"
reqwest = { version = "=0.11.27", default-features = false }
serde = { version = "=1.0.229", features = ["derive"] }
serde_json = "=1.0.154"
toml = "=0.5.11"
