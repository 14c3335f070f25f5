[package]
name = "token_ledger"
version = "0.1.0"
edition = "2021"
publish = false

[dependencies]
hex = "=0.4.3"
near-sdk = { version = "=5.29.1", default-features = false, features = ["non-contract-usage", "legacy"] }
serde = { version = "=1.0.229", features = ["derive"] }
