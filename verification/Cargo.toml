[package]
name = "slack_webhook"
version = "0.1.0"
edition = "2021"
publish = false

[dependencies]
hmac = "*"
sha2 = "*"
serde_json = "*"
serde = "*"
serde_derive = "*"
log = "*"
simple_logger = "*"
simple-error = "*"
lambda_runtime = "*"
tokio = { version = "*", features = ["macros", "rt"] }
