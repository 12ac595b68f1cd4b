[package]
name = "transaction-api"
version = "0.1.0"
edition = "2021"
publish = false

[dependencies]
chrono = "0.4"
jsonwebtoken = "9"
mysql = "*"
reqwest = { version = "0.12", default-features = false, features = ["json", "rustls-tls"] }
serde = { version = "1", features = ["derive"] }
serde_json = "1"
tracing = "0.1"
uuid = { version = "1", features = ["v4"] }
