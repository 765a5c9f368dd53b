[package]
name = "desktop2mqtt"
version = "0.1.0"
edition = "2021"
publish = false

[dependencies]
anyhow = "1"
directories-next = "2"
env_logger = "*"
futures-util = "0.3"
humantime-serde = "1"
log = "0.4"
mqtt-async-client = "*"
notify-rust = "4"
serde = { version = "1", features = ["derive"] }
serde_json = "1"
serde_yaml = "*"
structopt = "0.3"
systemstat = "*"
tokio = { version = "1", features = ["full"] }
user-idle = "*"
