[package]
name = "gamba"
version = "0.1.0"
edition = "2021"
publish = false

[dependencies]
chrono = "0.4"
rand = "0.8"
redis = { version = "0.23", features = ["tokio-comp", "connection-manager"] }
serenity = { version = "0.11", default-features = false, features = ["builder", "cache", "client", "gateway", "model", "http", "utils", "rustls_backend"] }
sqlx = { version = "0.7", default-features = false, features = ["runtime-tokio", "sqlite"] }
tokio = { version = "1", features = ["macros", "rt-multi-thread", "sync"] }
