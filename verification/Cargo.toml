[package]
name = "dsh_desktop"
version = "0.1.0"
edition = "2021"
publish = false

[dependencies]
libc = "=0.2.191"
opener = { version = "0.9", default-features = false }
signal-hook = "=0.3.18"
tauri = { version = "=2.12.5", default-features = false, features = ["wry"] }
url = "=2.5.8"
