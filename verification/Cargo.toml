[package]
name = "tari_comms"
version = "0.1.0"
edition = "2021"
publish = false

[dependencies]
futures = "0.3"
log = "0.4"
tari_shutdown = "*"
tokio = { version = "1", features = ["rt"] }
tower = "*"
