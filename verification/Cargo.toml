[package]
name = "vending_client"
version = "0.1.0"
edition = "2021"
publish = false

[dependencies]
solana-program = "=1.18.26"
solana-sdk = "=1.18.26"
spl-token = { version = ">=3.2, <5", features = ["no-entrypoint"] }
clap = { version = "=4.4.18", default-features = false, features = ["std", "help", "usage"] }
ureq = { version = "2", default-features = false, features = ["tls", "json"] }
serde_json = "*"
bincode = "=1.3.3"
base64 = "*"
