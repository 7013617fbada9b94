[package]
name = "slack_alert"
version = "0.1.0"
edition = "2021"
publish = false

[dependencies]
yaml-rust = "0.4"
clap = "2"
log = "0.4"
env_logger = "*"
tokio = { version = "1", features = ["macros", "rt-multi-thread"] }
lapin = "2"
reqwest = { version = "0.12", default-features = false }

[dev-dependencies]
serde_json = "1"
