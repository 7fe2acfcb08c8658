[package]
name = "sign_keypair"
version = "0.2.1"
edition = "2021"
publish = false

[dependencies]
base64 = "=0.22.1"
p256 = { version = "=0.13.2", features = ["ecdsa"] }
rand_core = { version = "=0.6.4", features = ["getrandom"] }
serde = { version = "1", features = ["derive"] }
serde_json = "1"
sha2 = "=0.10.9"
tauri = { version = "2", default-features = false }
