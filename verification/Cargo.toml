[package]
name = "revora_contracts"
version = "0.1.0"
edition = "2021"
publish = false

[dependencies]
soroban-sdk = { version = "=23.5.3", features = ["testutils"] }
proptest = "=1.12.0"
