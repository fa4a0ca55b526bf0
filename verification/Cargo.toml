[package]
name = "surface_lifecycle"
version = "0.1.0"
edition = "2021"
publish = false

[dependencies]
async-mutex = "1"
ndk-glue = "0.2"
smol = "1"
wgpu = "0.6"
wgpu-subscriber = "0.1"
winit = "0.23"
