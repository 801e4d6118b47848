[package]
name = "raytracer"
version = "0.1.0"
edition = "2021"
publish = false

[dependencies]
image = { version = "0.25", default-features = false, features = ["png", "jpeg"] }
minifb = "*"
nalgebra = "*"
nalgebra-glm = "*"
once_cell = "1"
rayon = "1"
