[package]
name = "gpu_dispatch"
version = "0.1.0"
edition = "2021"
publish = false

[dependencies]
anyhow = "*"
bytemuck = "*"
image = { version = "*", default-features = false, features = ["png"] }
pollster = "*"
wgpu = { version = "*", default-features = false, features = ["wgsl"] }
