[package]
name = "editor_studio"
version = "0.1.0"
edition = "2021"
publish = false

[dependencies]
image = { version = "*", default-features = false, features = ["png", "jpeg", "webp", "bmp"] }
wgpu = "*"
bytemuck = { version = "*", features = ["derive"] }
