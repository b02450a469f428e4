[package]
name = "cobrain_desktop"
version = "0.1.0"
edition = "2021"
publish = false

[dependencies]
tauri = { version = "=2.12.5", default-features = false, features = ["tray-icon"] }
tauri-plugin-global-shortcut = "2"
