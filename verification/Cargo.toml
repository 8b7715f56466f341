[package]
name = "mendel_shell"
version = "0.1.0"
edition = "2021"
publish = false

[dependencies]
base64 = "0.22"
tauri = { version = "2", default-features = false, features = ["wry"] }
tauri-plugin-fs = "2"
