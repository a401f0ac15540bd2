[package]
name = "easygpu"
version = "0.1.0"
edition = "2021"
publish = false

[dependencies]
bytemuck = { version = "=1.25.2", features = ["derive"] }
euclid = "=0.22.14"
figures = "=0.1.2"
lyon_tessellation = "=1.0.23"
num-traits = "=0.2.19"
raw-window-handle = "=0.5.2"
thiserror = "=1.0.69"
wgpu = { version = "=0.17.2", features = ["spirv"] }
