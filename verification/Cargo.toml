[package]
name = "coordinator_monitor"
version = "0.1.0"
edition = "2021"
publish = false

[dependencies]
eyre = "0.6"
regex = "1"
serde = { version = "1", features = ["derive"] }
serde_json = "1"
subprocess = "0.2"
toml = "0.5"
tracing = "0.1"
