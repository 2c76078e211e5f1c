[package]
name = "e2ee_core"
version = "0.1.0"
edition = "2021"
publish = false

[dependencies]
matrix-sdk-common = "0.7"
matrix-sdk-crypto = "0.7"
matrix-sdk-sqlite = { version = "0.7", features = ["crypto-store"] }
serde = "1"
serde_json = "1"
tokio = { version = "1", features = ["rt-multi-thread"] }
