[package]
name = "spot_gitlab_driver"
version = "0.1.0"
edition = "2021"
publish = false

[dependencies]
anyhow = "=1.0.104"
aws-config = "=1.13.0"
aws-sdk-ssm = "=1.133.0"
bpaf = { version = "0.9", features = ["derive"] }
openssh = "=0.11.6"
rustix = { version = "1", features = ["fs", "stdio"] }
serde = { version = "1", features = ["derive"] }
serde_json = "=1.0.154"
tokio = { version = "1", features = ["full"] }
tracing = "=0.1.44"
tracing-journald = "=0.3.2"
tracing-subscriber = { version = "0.3", features = ["env-filter"] }
