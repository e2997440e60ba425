[package]
name = "tray_shell"
version = "0.1.0"
edition = "2021"
publish = false

[dependencies]
serde = { version = "*", features = ["derive"] }
tauri = { version = "*", default-features = false, features = ["tray-icon"] }
