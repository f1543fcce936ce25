[package]
name = "spatial_transform"
version = "0.1.0"
edition = "2021"
publish = false

[dependencies]
const_soft_float = "=0.1.4"
nalgebra = "=0.35.0"
serde = { version = "=1.0.229", features = ["derive"] }

[dev-dependencies]
approx = "=0.5.1"
