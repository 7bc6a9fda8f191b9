[package]
name = "treasury_factory"
version = "0.1.0"
edition = "2021"
publish = false

[dependencies]
base64 = "=0.22.1"
near-sdk = { version = "=5.29.1", features = ["non-contract-usage"] }

[dev-dependencies]
serde_json = "=1.0.151"
html-escape = "=0.2.15"
