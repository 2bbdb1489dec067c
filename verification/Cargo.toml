[package]
name = "wgpu_core_demo"
version = "0.1.0"
edition = "2021"
publish = false

[dependencies]
anyhow = "*"
bytemuck = { version = "*", features = ["derive"] }
env_logger = "*"
image = "*"
log = "*"
pollster = "*"
wgpu = "*"
winit = "*"
