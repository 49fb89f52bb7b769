[package]
name = "license_gate"
version = "0.1.0"
edition = "2021"
publish = false

[dependencies]
base64 = "0.13"
rsa = "0.4"
sha2 = "0.9"
serde = { version = "1", features = ["derive"] }
serde_json = "1"
dirs = "4"
url = "2"
clap = { version = "4", features = ["derive"] }
duct = "0.13"

[dev-dependencies]
rand = "0.8"
