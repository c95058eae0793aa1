[package]
name = "mpris2mqtt"
version = "0.1.0"
edition = "2021"
publish = false

[dependencies]
anyhow = "*"
env_logger = "*"
gethostname = "*"
log = "*"
mpris = "*"
rumqttc = "*"
tokio = { version = "*", features = ["macros", "rt-multi-thread", "time"] }
