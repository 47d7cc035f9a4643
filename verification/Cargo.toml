[package]
name = "kaiju_academy"
version = "0.1.0"
edition = "2021"
publish = false

[dependencies]
anyhow = "1"
argon2 = "0.5"
aws_lambda_events = { version = "*", default-features = false, features = ["apigw"] }
chrono = { version = "0.4", features = ["serde"] }
http = "1"
jsonwebtoken = "9"
lambda_runtime = "*"
once_cell = "1"
serde = { version = "1", features = ["derive"] }
serde_json = "1"
surrealdb = { version = "*", default-features = false, features = ["protocol-ws"] }
thiserror = "1"
tokio = { version = "1", features = ["macros", "rt-multi-thread", "time"] }
tracing = "0.1"
tracing-subscriber = "0.3"
uuid = { version = "1", features = ["v4"] }
