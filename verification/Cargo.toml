[package]
name = "framepipe"
version = "0.1.0"
edition = "2021"
publish = false

[dependencies]
ffmpeg-next = "*"
raw-window-handle = "*"
thiserror = "*"
tracing = "*"
tracing-subscriber = "*"
winit = "*"
winsafe = { version = "*", features = ["gdi", "user"] }
