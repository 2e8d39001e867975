[package]
name = "desktop_bridge"
version = "0.1.0"
edition = "2021"
publish = false

[dependencies]
anyhow = "1"
async-process = "*"
async-stream = "0.3"
ddc-hi = "*"
env_logger = "*"
futures-lite = "*"
futures-util = "0.3"
log = "0.4"
rumqttc = "*"
serde = { version = "1", features = ["derive"] }
serde_json = "1"
serde_yaml = "0.9"
swayipc = "3"
swayipc-async = "2"
tokio = { version = "1", features = ["rt-multi-thread", "macros"] }
tokio-stream = "0.1"
