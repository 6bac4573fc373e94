[package]
name = "qrmax"
version = "0.1.0"
edition = "2021"
publish = false

[dependencies]
base64 = "*"
image = "*"
qrcode = "*"
quircs = "*"
serde_json = "*"
url = "*"

[dependencies.reqwest]
version = "*"
default-features = false
features = ["blocking", "multipart", "rustls-tls"]
