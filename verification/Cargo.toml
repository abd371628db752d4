[package]
name = "simcore"
version = "0.1.0"
edition = "2021"
publish = false

[dependencies]
nalgebra-glm = "=0.21.0"
bytemuck = { version = "=1.25.2", features = ["derive"] }
gltf = "=1.4.1"
png = "=0.17.16"
image = "=0.25.10"
winit = "=0.28.7"
