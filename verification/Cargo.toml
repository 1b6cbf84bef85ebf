[package]
name = "vimix_launcher"
version = "0.1.0"
edition = "2021"
publish = false

[dependencies]
portpicker = "=0.1.1"
tauri = { version = "2", default-features = false }
