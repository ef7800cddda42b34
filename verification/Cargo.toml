[package]
name = "tx_delivery"
version = "0.1.0"
edition = "2021"
publish = false

[dependencies]
colored = "2"
solana-program = "=1.18.26"
solana-sdk = "=1.18.26"
solana-transaction-status = "=1.18.26"
