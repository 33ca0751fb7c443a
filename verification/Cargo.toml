[package]
name = "nrg"
version = "0.1.0"
edition = "2021"
publish = false

[dependencies]
serde = { version = "*", features = ["derive"] }
serde_json = "*"
rumqttc = { version = "*", default-features = false }
tokio = { version = "*", features = ["full"] }
tokio-modbus = "*"
tokio-postgres = "*"
toml = "*"
clap = { version = "*", features = ["derive"] }
tracing = "*"
tracing-subscriber = "*"
