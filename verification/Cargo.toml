[package]
name = "studio"
version = "0.1.0"
edition = "2021"
publish = false

[dependencies]
serde = { version = "1", features = ["derive"] }
serde_json = "1"
tauri = { version = "2", default-features = false }
tauri-plugin-updater = { version = "2", default-features = false }
tokio = { version = "1", features = ["time"] }
cocoa = "*"
objc = "0.2"
block = "0.1"
