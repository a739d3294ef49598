[package]
name = "outcome-markets"
version = "0.1.0"
edition = "2021"
publish = false

[dependencies]
anchor-lang = "=1.2.2"
anchor-spl = { version = "=1.2.2", default-features = false, features = ["solana-v3", "token", "metadata"] }
pyth-solana-receiver-sdk = "=2.0.0"
