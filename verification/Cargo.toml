[package]
name = "game_overlay"
version = "0.1.0"
edition = "2021"
publish = false

[dependencies]
open = "5"
serde = { version = "1", features = ["derive"] }
tauri = { version = "2", default-features = false }
tauri-plugin-deep-link = "2"
windows-sys = { version = "0.59", features = ["Win32_Foundation", "Win32_System_Threading", "Win32_UI_WindowsAndMessaging"] }
