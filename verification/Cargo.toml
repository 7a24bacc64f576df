[package]
name = "swap_engine"
version = "0.1.0"
edition = "2021"
publish = false

[dependencies]
solana-pubkey = "2"
solana-keypair = "2"
solana-signer = "2"
solana-instruction = "2"
solana-transaction = "2"
solana-rpc-client = "2"
serde = { version = "1", features = ["derive"] }
serde_json = "1"
tokio = { version = "1", features = ["rt-multi-thread", "macros", "net", "sync", "time"] }
axum = "0.7"
tower-http = { version = "0.5", features = ["cors"] }
tracing = "0.1"
