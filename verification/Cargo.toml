[package]
name = "bravia_api"
version = "0.1.0"
edition = "2021"
publish = false

[dependencies]
serde_json = "=1.0.154"
reqwest = { version = "=0.12.28", default-features = false }
thiserror = "=1.0.69"
serde = { version = "=1.0.229", features = ["derive"] }
