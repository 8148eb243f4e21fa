[package]
name = "show_image"
version = "0.1.0"
edition = "2021"
publish = false

[dependencies]
glam = "=0.34.2"
winit = "=0.31.0-beta.2"
wgpu = "=30.0.1"
