[package]
name = "nekoton_bridge"
version = "0.1.0"
edition = "2021"
publish = false

[dependencies]
base64 = "=0.13.1"
hex = "=0.4.3"
sha2 = "=0.10.9"
serde_json = "=1.0.154"
anyhow = "=1.0.104"
async-trait = "=0.1.92"
flutter_rust_bridge = "=1.82.6"
nekoton = "=0.0.1"
ed25519-dalek = "1"
futures = "0.3"
