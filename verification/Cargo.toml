[package]
name = "tun_inbound"
version = "0.1.0"
edition = "2021"
publish = false

[dependencies]
futures = "0.3"
ipnet = "2"
tokio = { version = "1", features = ["rt", "sync"] }
tracing = "0.1"
tun = { version = "0.5", features = ["async"] }
url = "2"
