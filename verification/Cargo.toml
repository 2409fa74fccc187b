[package]
name = "frame_core"
version = "0.1.0"
edition = "2021"
publish = false

[dependencies]
ash = "0.38"
ash-window = "0.13"
cgmath = "0.18"
image = { version = "0.25", default-features = false, features = ["jpeg"] }
raw-window-handle = "0.6"
winit = { version = "0.30", default-features = false, features = ["x11", "rwh_06"] }
