[package]
name = "render_core"
version = "0.1.0"
edition = "2021"
publish = false

[dependencies]
anyhow = "1"
bytemuck = { version = "1", features = ["derive"] }
cgmath = "0.18"
image = "0.24"
pollster = "0.3"
tobj = { version = "3", features = ["async"] }
wgpu = "0.15"
winit = "0.28"
