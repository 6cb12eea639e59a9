[package]
name = "gpu_scenes"
version = "0.1.0"
edition = "2021"
publish = false

[dependencies]
anyhow = "1"
bytemuck = { version = "1", features = ["derive"] }
cgmath = "0.18"
pollster = "0.3"
wgpu = "0.20"
winit = "0.30"
