[package]
name = "splatview"
version = "0.1.0"
edition = "2021"
publish = false

[dependencies]
nalgebra = "*"
wgpu = "*"
bytemuck = "*"
futures = "*"

[dev-dependencies]
half = "*"
