[package]
name = "r3_core"
version = "0.1.0"
edition = "2021"
publish = false

[dependencies]
wgpu = { version = "=30.0.1", features = ["noop"] }
bytemuck = "=1.25.2"
cgmath = "=0.18.0"
tokio = { version = "=1.53.2", features = ["rt"] }
