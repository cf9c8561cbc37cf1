[package]
name = "timelapse"
version = "0.1.0"
edition = "2021"
publish = false

[dependencies]
chrono = "*"
md5 = "*"
reqwest = { version = "*", default-features = false, features = ["blocking"] }
metrics = "*"
metrics-exporter-prometheus = "*"
