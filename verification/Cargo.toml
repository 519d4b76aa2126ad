[package]
name = "secluso"
version = "0.1.0"
edition = "2021"
publish = false

[dependencies]
url = "2"
anyhow = "1"
uuid = "1"
serde = { version = "1", features = ["derive"] }
serde_json = "1"
ssh2 = "0.9"
embedded-hal = "1"
linux-embedded-hal = { version = "0.4", default-features = false, features = ["i2c"] }
rppal = "*"
qrcode = "*"
image = { version = "*", default-features = false, features = ["png"] }
