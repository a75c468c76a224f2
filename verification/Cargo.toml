[package]
name = "swap"
version = "0.1.0"
edition = "2021"
publish = false

[dependencies]
spl-token = { version = "=9.0.0", default-features = false, features = ["no-entrypoint"] }
solana-pubkey = { version = "=3.0.0", features = ["curve25519"] }
solana-instruction = "=3.5.1"
solana-program-error = "=3.0.1"
solana-cpi = "=3.1.0"
solana-account-info = "=3.1.1"
