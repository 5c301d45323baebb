[package]
name = "triangle_frame"
version = "0.1.0"
edition = "2021"
publish = false

[dependencies]
bytemuck = { version = "1", features = ["derive"] }
image = { version = "0.24", default-features = false, features = ["png"] }
log = "0.4"
vulkano = "0.31"
vulkano-shaders = "0.31"
