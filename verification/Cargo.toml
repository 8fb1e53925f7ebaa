[package]
name = "desktop_shell"
version = "0.1.0"
edition = "2021"
publish = false

[dependencies]
tauri = { version = "=2.12.5", default-features = false }
tauri-plugin-autostart = "=2.7.0"
tauri-plugin-fs = "2"
tauri-plugin-os = "=2.4.0"
tauri-plugin-process = "=2.4.0"
