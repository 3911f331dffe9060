[package]
name = "craftpath"
version = "0.1.0"
edition = "2021"
publish = false

[dependencies]
base64 = "0.22"
flate2 = "1"
quick-xml = "*"
serde = { version = "1", features = ["derive"] }
serde_json = "1"
anyhow = "1"
uuid = { version = "1", features = ["v7"] }
chrono = "0.4"
