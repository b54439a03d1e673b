[package]
name = "idle_arcade"
version = "0.1.0"
edition = "2021"
publish = false

[dependencies]
rand = "0.9"
yaml-rust2 = "*"
raylib = "*"
mki = "*"
winapi = { version = "0.3", features = ["winuser", "windef"] }
