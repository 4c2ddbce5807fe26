[package]
name = "mkb"
version = "0.1.0"
edition = "2021"
publish = false

[dependencies]
anyhow = "1"
axum = "0.8"
axum-extra = { version = "0.10", features = ["cookie"] }
base64 = "0.22"
chrono = "0.4"
diesel = { version = "2", features = ["postgres", "r2d2", "chrono", "uuid"] }
diesel_migrations = "2"
dotenvy = "0.15"
jsonwebtoken = { version = "10", features = ["rust_crypto"] }
r2d2 = "0.8"
reqwest = { version = "0.12", features = ["json"] }
serde = { version = "1", features = ["derive"] }
serde_json = "1"
tokio = { version = "1", features = ["full"] }
tracing = "0.1"
tracing-subscriber = { version = "0.3", features = ["env-filter"] }
urlencoding = "2"
uuid = { version = "1", features = ["v4"] }
