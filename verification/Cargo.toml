[package]
name = "submitter"
version = "0.1.0"
edition = "2021"
publish = false

[dependencies]
solana-program = "=2.1.21"
solana-rpc-client = { version = "=2.1.21", default-features = false }
solana-rpc-client-api = "=2.1.21"
solana-sdk = "=2.1.21"
solana-transaction-status-client-types = "=2.1.21"
