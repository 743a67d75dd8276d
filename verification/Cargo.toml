[package]
name = "herald"
version = "0.1.0"
edition = "2021"
publish = false

[dependencies]
serde_json = "1"
uuid = { version = "1", features = ["v4"] }
mdns-sd = "0.13"
tokio = { version = "1", features = ["sync", "time", "rt"] }
async-trait = "0.1"
orra = "0.0.2"
