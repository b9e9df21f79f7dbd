[package]
name = "sniper_core"
version = "0.1.0"
edition = "2021"
publish = false

[dependencies]
anyhow = "*"
serde = { version = "*", features = ["derive"] }
solana-sdk = "=1.18.26"
tokio = { version = "*", features = ["macros", "rt-multi-thread", "time"] }
