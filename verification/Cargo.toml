[package]
name = "mhdm"
version = "0.1.0"
edition = "2021"
publish = false

[dependencies]
wgpu = "*"
winit = "0.30"
pollster = "0.4"
bytemuck = { version = "1", features = ["derive"] }
anyhow = "1"
