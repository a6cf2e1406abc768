[package]
name = "custom_protocol"
version = "0.1.0"
edition = "2021"
publish = false

[dependencies]
log = "0.4"
serde = { version = "1", features = ["derive"] }
serde_qs = "0.12"
tauri-plugin-deep-link = "0.1"
thiserror = "1"
url = "2"
