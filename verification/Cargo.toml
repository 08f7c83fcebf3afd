[package]
name = "engine"
version = "0.1.0"
edition = "2021"
publish = false

[dependencies]
ash = "=0.38.0"
gpu-allocator = "=0.28.0"
sdl3 = { version = "=0.22.0", features = ["ash"] }
glam = { version = "=0.34.2", features = ["bytemuck"] }
bytemuck = { version = "=1.25.2", features = ["derive"] }
thiserror = "=2.0.21"
image = { version = "=0.25.10", default-features = false, features = ["png", "bmp"] }
