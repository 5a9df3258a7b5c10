[package]
name = "scene2d"
version = "0.1.0"
edition = "2021"
publish = false

[dependencies]
bytemuck = "1"
crevice = "0.6"
env_logger = "0.8"
log = "0.4"
mint = "0.5"
nalgebra = { version = "0.25", features = ["mint"] }
raw-window-handle = "0.3"
tokio = { version = "1", features = ["macros", "rt"] }
wgpu = "0.7"
winit = "0.24"
