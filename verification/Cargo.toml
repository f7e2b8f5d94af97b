[package]
name = "difcheck"
version = "0.1.0"
edition = "2021"
publish = false

[dependencies]
proguard = { version = "=5.10.5", features = ["uuid"] }
uuid = "=1.29.0"
clap = "=2.34.0"
console = "=0.16.6"
serde = { version = "=1.0.229", features = ["derive"] }
serde_json = "=1.0.154"
