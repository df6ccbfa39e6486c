[package]
name = "app_update"
version = "0.1.0"
edition = "2021"
publish = false

[dependencies]
semver = "=1.0.28"
tauri = { version = "=2.12.5", default-features = false }
tauri-plugin-autostart = { version = "=2.7.0", default-features = false }
tauri-plugin-fs = { version = "=2.7.1", default-features = false }
tauri-plugin-os = { version = "=2.4.0", default-features = false }
tauri-plugin-process = { version = "=2.4.0", default-features = false }
tauri-plugin-updater = { version = "=2.14.0", default-features = false }
