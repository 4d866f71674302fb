[package]
name = "event_plugin"
version = "0.1.0"
edition = "2021"
publish = false

[dependencies]
anyhow = "1"
ethabi = "*"
hex = "0.4"
serde = { version = "1", features = ["derive"] }
serde_json = "1"
