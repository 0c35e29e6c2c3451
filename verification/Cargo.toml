[package]
name = "raytracer"
version = "0.1.0"
edition = "2021"
publish = false

[dependencies]
yaml-rust = "0.4"
fastrand = "2"
image = { version = "0.24", default-features = false, features = ["png", "jpeg"] }
glam = "*"
bvh = "0.7"
rayon = "1"
stl_io = "*"
obj-rs = "*"
