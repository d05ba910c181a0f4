[package]
name = "auth_gateway"
version = "0.1.0"
edition = "2021"
publish = false

[dependencies]
actix-cors = "=0.5.4"
actix-rt = "=1.1.1"
actix-web = { version = "=3.3.3", default-features = false }
actix-web-httpauth = "=0.5.1"
chrono = { version = "=0.4.45", features = ["serde"] }
futures = "=0.3.34"
jwks-client = "=0.2.0"
mongodb = "=1.2.5"
serde = { version = "=1.0.229", features = ["derive"] }
serde_qs = "=0.7.2"
tokio = { version = "=0.2.25", features = ["sync"] }
