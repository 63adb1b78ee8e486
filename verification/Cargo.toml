[package]
name = "entropy_shell"
version = "0.1.0"
edition = "2021"
publish = false

[dependencies]
urlencoding = "2"
serde = { version = "1", features = ["derive"] }
serde_json = "1"
once_cell = "1"
log = "0.4"
tauri = { version = "2", default-features = false, features = ["tray-icon"] }
