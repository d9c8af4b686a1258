[package]
name = "mesh_renderer"
version = "0.1.0"
edition = "2021"
publish = false

[dependencies]
cgmath = "0.17"
wgpu = "0.4"
winit = "0.20"
