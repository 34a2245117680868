[package]
name = "corrosive_engine"
version = "0.1.0"
edition = "2021"
publish = false

[dependencies]
anyhow = "1"
bytemuck = { version = "1", features = ["derive"] }
pollster = "0.3"
wgpu = "0.16"
winit = "0.28"
