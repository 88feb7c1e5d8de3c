[package]
name = "callisto"
version = "0.1.0"
edition = "2021"
publish = false

[dependencies]
rand = "0.8"
gl = "0.14"
glutin = "0.29"
nalgebra-glm = "*"
thiserror = "1"
