[package]
name = "wraut"
version = "0.1.0"
edition = "2021"
publish = false

[dependencies]
axum = "*"
tokio = { version = "*", features = ["macros", "rt-multi-thread", "net", "sync"] }
sqlx = { version = "*", default-features = false, features = ["runtime-tokio", "sqlite"] }
serde = { version = "*", features = ["derive"] }
serde_yaml = "*"
dotenv = "*"
futures = "*"
async-stream = "*"
tracing = "*"
tracing-subscriber = "*"
tracing-appender = "*"
