[package]
name = "pixelsort"
version = "0.1.0"
edition = "2021"
publish = false

[dependencies]
image = "=0.25.10"
pollster = "=1.0.1"
shaderc = "=0.10.1"
wgpu = { version = "=30.0.1", features = ["spirv"] }
