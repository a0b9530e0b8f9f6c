[package]
name = "shell"
version = "0.1.0"
edition = "2021"
publish = false

[dependencies]
tiny-skia = { version = "=0.12.0", default-features = false, features = ["std"] }
