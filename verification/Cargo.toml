[package]
name = "pyramid_engine"
version = "0.1.0"
edition = "2021"
publish = false

[dependencies]
bytemuck = { version = "1", features = ["derive"] }
cfg-if = "1"
chrono = "0.4"
env_logger = "0.11"
futures = "0.3"
glam = { version = "0.29", features = ["bytemuck"] }
log = "0.4"
ordered-float = "4"
thiserror = "1"
wgpu = "23"
winit = "0.30"
winit_input_helper = "*"
