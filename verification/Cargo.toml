[package]
name = "window_state"
version = "0.1.0"
edition = "2021"
publish = false

[dependencies]
serde_json = { version = "=1.0.154", features = ["raw_value"] }

[dev-dependencies]
serde = "=1.0.229"
