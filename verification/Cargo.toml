[package]
name = "gravylib"
version = "0.1.0"
edition = "2021"
publish = false

[dependencies]
wgpu = "0.16"
winit = "0.28"
futures = "0.3"
bytemuck = { version = "1", features = ["derive"] }
