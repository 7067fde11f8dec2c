[package]
name = "azusa_lens"
version = "0.1.0"
edition = "2021"
publish = false

[dependencies]
wayclip-global-hotkey = "=0.7.0"
image = { version = "=0.25.10", default-features = false, features = ["png"] }
base64 = "=0.23.1"
dirs = "=7.0.0"
serde = { version = "=1.0.229", features = ["derive"] }
serde_json = "=1.0.154"
ureq = { version = "=2.12.1", features = ["json"] }
sys-locale = "*"
