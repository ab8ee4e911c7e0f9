[package]
name = "voxel_core"
version = "0.1.0"
edition = "2021"
publish = false

[dependencies]
tokio = { version = "=1.54.1", default-features = false, features = ["rt", "fs"] }
wgpu = { version = "25", default-features = false, features = ["vulkan", "wgsl"] }
winit = { version = "=0.29.15", default-features = false, features = ["rwh_06", "x11"] }
