[package]
name = "dassi"
version = "0.1.0"
edition = "2021"
publish = false

[dependencies]
solana-program = "=5.1.0"
solana-pubkey = { version = "=4.4.0", features = ["sha2", "curve25519", "std"] }
spl-token = { version = "=9.0.0", default-features = false, features = ["no-entrypoint"] }
bs58 = "=0.5.1"
