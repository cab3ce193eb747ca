[package]
name = "jot"
version = "0.1.0"
edition = "2021"
publish = false

[dependencies]
dirs = "*"
tauri = { version = "2", default-features = false, features = ["wry"] }
tauri-plugin-fs = { version = "2", default-features = false }
tokio = { version = "1", default-features = false, features = ["fs"] }
