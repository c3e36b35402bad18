[package]
name = "custody_ledger"
version = "0.1.0"
edition = "2021"
publish = false

[dependencies]
solana-program = "2.1"

[dev-dependencies]
borsh = "1"
