[package]
name = "fuel"
version = "0.1.0"
edition = "2021"
publish = false

[dependencies]
uuid = { version = "1", features = ["v4"] }
gl = "0.14"
glutin = "0.29"
gltf = "1"
image = "0.25"
nalgebra = "0.33"
