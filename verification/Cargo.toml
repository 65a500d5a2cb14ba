[package]
name = "client_rust"
version = "0.1.0"
edition = "2021"
publish = false

[dependencies]
solana-sdk = "1.18"

[dev-dependencies]
borsh = "0.10"
