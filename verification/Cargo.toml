[package]
name = "ds_api"
version = "0.1.0"
edition = "2021"
publish = false

[dependencies]
reqwest = { version = "*", default-features = false, features = ["stream"] }
futures = "*"
eventsource-stream = "*"

[dev-dependencies]
serde_json = "*"
