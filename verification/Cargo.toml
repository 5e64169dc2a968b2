[package]
name = "zalo-tauri"
version = "0.1.0"
edition = "2021"
publish = false

[dependencies]
gtk = "0.18"
notify-rust = { version = "4", default-features = false, features = ["d"] }
tauri = { version = "2", default-features = false, features = ["wry", "tray-icon"] }
webkit2gtk = "2"
