[package]
name = "triangle_driver"
version = "0.1.0"
edition = "2021"
publish = false

[dependencies]
log = "0.4"
env_logger = "0.9"
pollster = "0.2"
winit = "0.26"
wgpu = "0.12"
