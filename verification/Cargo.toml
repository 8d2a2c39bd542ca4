[package]
name = "thingspace_sdk"
version = "0.1.0"
edition = "2021"
publish = false

[dependencies]
base64ct = { version = "*", features = ["alloc"] }
serde = { version = "*", features = ["derive"] }
serde_json = "*"
ureq = "*"
toml = "*"
