[package]
name = "poly_settle"
version = "0.1.0"
edition = "2021"
publish = false

[dependencies]
alloy = { version = "*", default-features = false }
alloy-primitives = { version = "*", default-features = false }
base64 = "*"
hmac = "*"
serde_json = "*"
sha2 = "*"
