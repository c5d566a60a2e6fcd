[package]
name = "lambda_runtime_provider"
version = "0.1.0"
edition = "2021"
publish = false

[dependencies]
anyhow = "=1.0.104"
aws_lambda_events = "=0.2.7"
base64 = "=0.12.3"
env_logger = "=0.7.1"
log = "=0.4.34"
reqwest = { version = "=0.10.10", default-features = false, features = ["blocking", "json"] }
rmp = "=0.8.9"
serde = { version = "=1.0.229", features = ["derive"] }
serde_json = "=1.0.154"
url = "=2.5.8"
wascc-codec = "=0.6.0"
