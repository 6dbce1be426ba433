[package]
name = "batch_transfer"
version = "0.1.0"
edition = "2021"
publish = false

[dependencies]
futures = "*"
serde = { version = "*", features = ["derive"] }
serde_yaml = "*"
solana-commitment-config = "*"
solana-sdk = "=5.0.0"
solana-system-interface = "*"
tokio = { version = "*", features = ["macros", "rt-multi-thread", "time"] }
