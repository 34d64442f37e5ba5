[package]
name = "ledger_indexer"
version = "0.1.0"
edition = "2021"
publish = false

[dependencies]
axum = "0.7"
futures-util = "0.3"
serde = { version = "1", features = ["derive"] }
serde_json = "1"
solana-commitment-config = "2"
solana-pubsub-client = "2.3"
solana-rpc-client = { version = "2.3", default-features = false }
solana-rpc-client-api = "2.3"
solana-transaction-error = "2"
solana-transaction-status-client-types = "2.3"
thiserror = "1"
tokio = { version = "1", features = ["macros", "net", "rt-multi-thread", "signal", "sync", "time"] }
tower-http = { version = "0.5", features = ["cors"] }
