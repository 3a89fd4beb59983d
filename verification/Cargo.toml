[package]
name = "physarum"
version = "0.1.0"
edition = "2021"
publish = false

[dependencies]
rand = "0.8"
bytemuck = { version = "1", features = ["derive"] }
wgpu = { version = "0.19", default-features = false, features = ["wgsl"] }
tokio = { version = "1", features = ["rt", "time"] }
