[package]
name = "querylayer"
version = "0.1.0"
edition = "2021"
publish = false

[dependencies]
sqlx = { version = "0.8", default-features = false, features = ["runtime-async-std", "sqlite", "postgres", "json"] }
async-std = { version = "1", features = ["attributes"] }
futures = "0.3"
serde_json = "1"
