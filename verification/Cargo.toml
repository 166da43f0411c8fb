[package]
name = "coin_core"
version = "0.1.0"
edition = "2021"
publish = false

[dependencies]
chrono = "0.4"
serde = { version = "1", features = ["derive"] }
serde_json = "1"
thiserror = "1"
tokio = { version = "1", features = ["full"] }
keyring = { version = "2", default-features = false }
whoami = "1"
reqwest = { version = "0.11", features = ["json"] }
firestore = "*"
gcloud-sdk = "*"
firestore-db-and-auth = "*"
tracing = "0.1"
