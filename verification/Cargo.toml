[package]
name = "sprint_summary"
version = "0.1.0"
edition = "2021"
publish = false

[dependencies]
anyhow = "*"
async-trait = "*"
aws-config = "*"
aws-sdk-eventbridge = "*"
aws-sdk-s3 = "*"
base64 = "*"
chrono = "=0.4.45"
chrono-tz = "=0.10.4"
futures = "*"
hex = "*"
hmac = "=0.12.1"
lambda_http = "*"
lambda_runtime = "*"
regex = "*"
reqwest = { version = "*", default-features = false, features = ["json"] }
serde = { version = "*", features = ["derive"] }
serde_json = "*"
serde_urlencoded = "*"
sha2 = "=0.10.9"
tokio = { version = "*", features = ["macros", "rt"] }
tracing = "*"
