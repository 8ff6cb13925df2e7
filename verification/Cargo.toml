[package]
name = "splerg_p2p"
version = "0.1.0"
edition = "2021"
publish = false

[dependencies]
solana-program = "1.18"
spl-token = { version = "4.0", features = ["no-entrypoint"] }
spl-token-2022 = { version = "3.0", features = ["no-entrypoint"] }

[dev-dependencies]
borsh = "1"
