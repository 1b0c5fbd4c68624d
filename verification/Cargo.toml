[package]
name = "play_rs"
version = "0.1.0"
edition = "2021"
publish = false

[dependencies]
aws_lambda_events = "*"
http = "*"
lambda_runtime = "*"
log = "*"
simple_logger = "*"
tokio = { version = "*", features = ["macros", "rt-multi-thread"] }
