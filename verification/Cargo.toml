[package]
name = "pact_native"
version = "0.1.0"
edition = "2021"
publish = false

[dependencies]
serde_json = "=1.0.154"
pact_matching = "=0.5.14"
pact_mock_server = "=0.6.2"
uuid = { version = "=1.29.0", features = ["v4"] }
env_logger = "=0.6.2"
log = "0.4"
lazy_static = "1"
maplit = "1"
