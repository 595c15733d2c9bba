[package]
name = "pump_cli"
version = "0.1.0"
edition = "2021"
publish = false

[dependencies]
solana-sdk = "2"
sha2 = "0.10"
bs58 = "0.5"
bip39 = "2"
spl-associated-token-account = "6"
spl-token = "7"
anyhow = "1"
serde = { version = "1", features = ["derive"] }
serde_json = "1"
clap = { version = "4", features = ["derive"] }
tokio = { version = "1", features = ["macros", "rt-multi-thread", "time"] }
colored = "2"
comfy-table = "7"
dirs = "5"
rand = "0.8"
base64 = "0.22"
bincode = "1"
