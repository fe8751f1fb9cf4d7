[package]
name = "pms5003_exporter"
version = "0.1.0"
edition = "2021"
publish = false

[dependencies]
bytes = "*"
prometheus-client = "*"
tokio-util = { version = "*", features = ["codec"] }
