[package]
name = "account_service"
version = "0.1.0"
edition = "2021"
publish = false

[dependencies]
argon2 = "=0.6.0"
jsonwebtoken = { version = "=11.1.0", features = ["rust_crypto"] }
chrono = "=0.4.45"
validator = "=0.21.0"
serde = { version = "*", features = ["derive"] }
serde_json = "=1.0.151"
axum = "*"
tokio = { version = "*", features = ["full"] }
uuid = { version = "*", features = ["v4"] }
dotenv = "*"
