[package]
name = "matting_bench"
version = "0.1.0"
edition = "2021"
publish = false

[dependencies]
burn = { version = "=0.19.1", default-features = false, features = ["ndarray", "wgpu"] }
image = { version = "=0.25.10", default-features = false, features = ["png"] }
