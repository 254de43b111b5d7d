[package]
name = "arcane_bridge"
version = "0.1.0"
edition = "2021"
publish = false

[dependencies]
serde = { version = "=1.0.229", features = ["derive"] }
serde_json = "=1.0.154"
tokio = { version = "=1.54.1", features = ["time"] }
tauri = { version = "=2.12.5", default-features = false, features = ["wry", "tray-icon"] }
