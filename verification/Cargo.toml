[package]
name = "xray"
version = "0.1.0"
edition = "2021"
publish = false

[dependencies]
rand = "*"
thread-local-object = "*"

[dev-dependencies]
serde_json = "*"
