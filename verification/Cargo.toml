[package]
name = "ckb_network"
version = "0.1.0"
edition = "2021"
publish = false

[dependencies]
hex = "=0.4.3"
log = "=0.4.35"
ractor = "=0.9.8"
serde = { version = "=1.0.229", features = ["derive"] }
serde_with = "=3.24.0"
tentacle = "=0.6.7"
tokio-util = { version = "=0.7.11", features = ["rt"] }
