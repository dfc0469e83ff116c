[package]
name = "users_api"
version = "0.1.0"
edition = "2021"
publish = false

[dependencies]
axum = "*"
tokio = { version = "*", features = ["rt-multi-thread", "macros", "net", "fs", "io-util"] }
serde = { version = "*", features = ["derive"] }
serde_json = "*"
chrono = "*"
dotenv = "*"
