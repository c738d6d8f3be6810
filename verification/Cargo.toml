[package]
name = "frame_orchestrator"
version = "0.1.0"
edition = "2021"
publish = false

[dependencies]
bytemuck = "1"
env_logger = "0.7"
futures = "0.3"
glsl-to-spirv = "0.1.7"
image = { version = "0.23", default-features = false, features = ["png"] }
wgpu = "0.5"
winit = "0.22"
