[package]
name = "noise_generator"
version = "0.1.0"
edition = "2021"
publish = false

[dependencies]
bytemuck = "1"
futures = "0.3"
wgpu = "0.9"
wgpu_glyph = "0.13"
winit = "0.25"
