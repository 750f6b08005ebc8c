[package]
name = "wgpu_intro"
version = "0.1.0"
edition = "2021"
publish = false

[dependencies]
anyhow = "1"
bytemuck = { version = "1", features = ["derive"] }
env_logger = "*"
image = { version = "*", default-features = false, features = ["png"] }
parking_lot = "*"
pollster = "*"
tracing = "0.1"
tracing-subscriber = { version = "0.3", features = ["env-filter", "fmt"] }
wgpu = "*"
winit = "0.30"
