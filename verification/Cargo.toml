[package]
name = "meshview"
version = "0.1.0"
edition = "2021"
publish = false

[dependencies]
wgpu = "*"
winit = "*"
gltf = "*"
pollster = "*"
env_logger = "*"
log = "*"
