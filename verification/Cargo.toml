[package]
name = "mollysocket"
version = "0.1.0"
edition = "2021"
publish = false

[dependencies]
eyre = "0.6"
log = "0.4"
rocket = { version = "0.5", features = ["json"] }
url = "2"
