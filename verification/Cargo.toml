[package]
name = "gpu_app"
version = "0.1.0"
edition = "2021"
publish = false

[dependencies]
wgpu = { version = "=0.19.4", default-features = false, features = ["wgsl"] }
winit = "=0.30.13"
futures-lite = "=1.13.0"
env_logger = "=0.10.2"
log = "=0.4.34"
bytemuck = { version = "=1.25.2", features = ["derive"] }
