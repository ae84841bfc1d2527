[package]
name = "didomi_consent"
version = "0.1.0"
edition = "2021"
publish = false

[dependencies]
serde_json = "*"
base64 = "*"
urlencoding = "*"
