[package]
name = "wgpu_uwu"
version = "0.1.0"
edition = "2021"
publish = false

[dependencies]
bytemuck = { version = "=1.25.2", features = ["derive"] }
glam = "=0.34.2"
pollster = "=1.0.1"
env_logger = "=0.11.11"
wgpu = "=29.0.4"
winit = "=0.30.13"
image = { version = "=0.25.10", default-features = false, features = ["png"] }
