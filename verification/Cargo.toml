[package]
name = "pg_dashboard"
version = "0.1.0"
edition = "2021"
publish = false

[dependencies]
deadpool-postgres = "0.14"
tokio-postgres = { version = "0.7", features = ["with-serde_json-1"] }
tokio = { version = "1", features = ["rt"] }
serde = { version = "1", features = ["derive"] }
serde_json = "1"
keyring = "3"
dirs = "5"
