[package]
name = "user_store"
version = "0.1.0"
edition = "2021"
publish = false

[dependencies]
uuid = { version = "*", features = ["v4"] }
serde = { version = "*", features = ["derive"] }
tokio = { version = "*", features = ["macros", "rt-multi-thread"] }
axum = "*"
aws-config = "*"
aws-sdk-dynamodb = "*"
lambda_http = "*"
tracing = "*"
tracing-subscriber = "*"
