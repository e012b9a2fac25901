[package]
name = "image_browser"
version = "0.1.0"
edition = "2021"
publish = false

[dependencies]
chrono = { version = "0.4", features = ["serde"] }
dirs = "6"
image = { version = "0.25", default-features = false, features = ["png", "jpeg", "gif", "bmp", "tiff", "webp"] }
qcos = "0.1"
resize = "0.8"
rfd = "0.15"
rgb = "0.8"
serde = { version = "1", features = ["derive"] }
serde_json = "1"
