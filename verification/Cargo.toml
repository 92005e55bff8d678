[package]
name = "kotovoe"
version = "0.1.0"
edition = "2021"
publish = false

[dependencies]
argon2 = { version = "=0.5.3", features = ["std"] }
base64 = "=0.21.7"
jsonwebtoken = { version = "=9.3.1", default-features = false }
serde = { version = "=1.0.229", features = ["derive"] }
serde_json = { version = "=1.0.154", features = ["preserve_order"] }
time = "=0.3.55"
axum = "=0.8.9"
axum-extra = { version = "=0.10.3", features = ["cookie"] }
chrono = { version = "=0.4.45", features = ["serde"] }
dotenv = "=0.15.0"
sqlx = { version = "=0.8.6", default-features = false, features = ["postgres", "runtime-tokio", "chrono"] }
tokio = { version = "=1.54.1", features = ["macros", "rt-multi-thread", "net"] }
tower-http = { version = "=0.6.11", features = ["cors", "trace"] }
tracing = "=0.1.44"
tracing-subscriber = { version = "=0.3.23", features = ["env-filter"] }
