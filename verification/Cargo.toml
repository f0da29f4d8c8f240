[package]
name = "transfer_sol_example"
version = "0.1.0"
edition = "2021"
publish = false

[dependencies]
borsh = "=1.8.1"
solana-program = "=5.1.0"
solana-system-interface = { version = "*", features = ["bincode"] }
