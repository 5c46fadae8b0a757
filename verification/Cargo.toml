[package]
name = "smol_engine"
version = "0.1.0"
edition = "2021"
publish = false

[dependencies]
anyhow = "=1.0.104"
futures = "=0.3.34"
glfw = { version = "=0.41.0", default-features = false }
glsl-to-spirv = "0.1"
image = "=0.23.14"
imgui = "=0.5.0"
legion = "=0.2.4"
nalgebra = "=0.22.1"
tobj = "=2.0.4"
wgpu = "=0.6.2"
