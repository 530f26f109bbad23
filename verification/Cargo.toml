[package]
name = "bevy_openxr"
version = "0.1.0"
edition = "2021"
publish = false

[dependencies]
openxr = "0.18"
wgpu = { version = "0.19", default-features = false }
