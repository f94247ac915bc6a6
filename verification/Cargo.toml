[package]
name = "wallet_ledger"
version = "0.1.0"
edition = "2021"
publish = false

[dependencies]
exonum = "0.9"
serde = "1"
serde_json = "1"
