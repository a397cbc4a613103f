[package]
name = "faucet_core"
version = "0.1.0"
edition = "2021"
publish = false

[dependencies]
anyhow = "*"
axum = "*"
base64 = "=0.22.1"
bincode = "=1.3.3"
bs58 = "*"
chrono = "*"
dashmap = "=6.2.1"
dirs = "*"
rand = "=0.10.3"
serde = { version = "*", features = ["derive"] }
serde_json = "=1.0.151"
solana-sdk = "=5.0.0"
solana-system-interface = "=3.3.0"
thiserror = "*"
tokio = { version = "*", features = ["full"] }
tower-http = { version = "*", features = ["cors", "fs"] }
tracing = "*"
tracing-subscriber = "*"
uuid = { version = "=1.27.0", features = ["v4"] }
