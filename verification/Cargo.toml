[package]
name = "triframe"
version = "0.1.0"
edition = "2021"
publish = false

[dependencies]
wgpu = "22"
winit = "0.30"
tokio = { version = "1", features = ["rt"] }
tracing = "0.1"
tracing-subscriber = "0.3"
