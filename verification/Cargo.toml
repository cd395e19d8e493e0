[package]
name = "atoz_gui"
version = "0.1.0"
edition = "2021"
publish = false

[dependencies]
bytemuck = { version = "1", features = ["derive"] }
image = { version = "0.24", default-features = false, features = ["png"] }
wgpu = "0.17"
winit = "0.28"
