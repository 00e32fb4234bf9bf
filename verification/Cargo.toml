[package]
name = "cloudjournal"
version = "0.1.0"
edition = "2021"
publish = false

[dependencies]
env_logger = "*"
rusoto_core = "*"
rusoto_logs = "*"
serde_json = "1"
systemd = "*"
tokio = { version = "1", features = ["rt"] }
