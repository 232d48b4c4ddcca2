[package]
name = "qrgen"
version = "0.1.0"
edition = "2021"
publish = false

[dependencies]
qrcode = "*"
image = "*"
sha256 = "*"
