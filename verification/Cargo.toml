[package]
name = "frame_lifecycle"
version = "0.1.0"
edition = "2021"
publish = false

[dependencies]
png = "0.17"
vulkano = "0.34"
winit = { version = "0.29", default-features = false, features = ["x11", "rwh_05"] }
nalgebra = "0.33"
bytemuck = { version = "1", features = ["derive"] }
gltf = "1"
image = "0.25"
palette = "0.7"
thiserror = "1"
tracing = "0.1"
tracing-subscriber = "0.3"
