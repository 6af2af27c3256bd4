[package]
name = "rpbot"
version = "0.1.0"
edition = "2021"
publish = false

[dependencies]
json = "=0.12.4"
colored = "=2.2.0"
chrono = "=0.4.45"
once_cell = "=1.21.4"
serde = { version = "=1.0.229", features = ["derive"] }
tokio = { version = "=1.54.1", features = ["full"] }
serenity = { version = "=0.11.7", default-features = false, features = ["builder", "cache", "client", "gateway", "model", "http", "utils", "rustls_backend", "framework", "standard_framework", "unstable_discord_api"] }
mongodb = "=2.8.2"
