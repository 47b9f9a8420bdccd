[package]
name = "rectbatch"
version = "0.1.0"
edition = "2021"
publish = false

[dependencies]
bytemuck = { version = "1", features = ["derive"] }
pollster = "0.4"
wgpu = "27"
winit = "0.30"
