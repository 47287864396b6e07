[package]
name = "pumpdotfun_sdk"
version = "0.1.0"
edition = "2021"
publish = false

[dependencies]
solana-sdk = { version = "=2.2.2", default-features = false }
spl-associated-token-account = { version = "=6.0.0", features = ["no-entrypoint"] }

[dev-dependencies]
borsh = "=1.5.7"
