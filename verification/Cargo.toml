[package]
name = "token_2022_ext"
version = "0.1.0"
edition = "2021"
publish = false

[dependencies]
solana-account-view = "=3.0.0"
solana-address = "=2.9.0"
solana-instruction-view = { version = "=3.0.0", features = ["cpi"] }
solana-program-error = "=3.0.1"
