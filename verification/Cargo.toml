[package]
name = "courier"
version = "0.4.0"
edition = "2021"
publish = false

[dependencies]
quote = "=0.3.15"
rmp-serde = "1.3"
serde = "=1.0.229"
serde_json = { version = "=1.0.154", features = ["preserve_order"] }
syn = "=0.11.11"
