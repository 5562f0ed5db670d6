[package]
name = "lol_bot"
version = "0.1.0"
edition = "2021"
publish = false

[dependencies]
aws-config = "*"
aws-sdk-dynamodb = "*"
aws-sdk-sqs = "*"
chrono = "0.4"
ed25519-dalek = "1"
futures = "0.3"
hex = "0.4"
lambda_runtime = "*"
reqwest = { version = "0.11", default-features = false, features = ["json", "rustls-tls"] }
serde = { version = "1", features = ["derive"] }
serde_json = "1"
tokio = { version = "1", features = ["macros", "rt-multi-thread", "sync", "time"] }
