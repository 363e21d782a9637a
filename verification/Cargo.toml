[package]
name = "tauri-plugin-nspopover"
version = "3.0.0"
edition = "2021"
publish = false

[dependencies]
tauri = { version = "2", default-features = false, features = ["tray-icon"] }
tray-icon = "*"
objc2 = "0.5"
objc2-app-kit = "0.2"
objc2-foundation = "0.2"
icrate = "0.1"
