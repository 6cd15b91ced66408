[package]
name = "eth_indexer"
version = "0.1.0"
edition = "2021"
publish = false

[dependencies]
alloy = { version = "=1.0.42", default-features = false, features = ["std", "rpc-types"] }
dotenv = "0.15"
envconfig = "0.11"
futures-util = "0.3"
lapin = { version = "3.7", default-features = false }
serde = { version = "1", features = ["derive"] }
serde_json = "1"
tokio = { version = "1", features = ["macros", "rt-multi-thread", "signal"] }
