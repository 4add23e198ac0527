[package]
name = "dirtybase"
version = "0.1.0"
edition = "2021"
publish = false

[dependencies]
sqlx = { version = "0.6", default-features = false, features = ["mysql", "runtime-tokio-rustls", "chrono"] }
futures = "0.3"
serde_json = "1"
anyhow = "1"
