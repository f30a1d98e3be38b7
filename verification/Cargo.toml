[package]
name = "metric_dump"
version = "0.1.0"
edition = "2021"
publish = false

[dependencies]
aws-config = { version = "*", default-features = false, features = ["behavior-version-latest", "rt-tokio"] }
aws-sdk-cloudwatch = { version = "*", default-features = false, features = ["behavior-version-latest", "rt-tokio"] }
chrono = "*"
clap = { version = "*", features = ["derive"] }
csv = "*"
futures = "*"
serde = { version = "*", features = ["derive"] }
serde_json = "*"
tokio = { version = "*", features = ["macros", "rt-multi-thread", "fs"] }
