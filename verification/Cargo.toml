[package]
name = "solar_system"
version = "0.1.0"
edition = "2021"
publish = false

[dependencies]
nalgebra-glm = "*"
minifb = "*"
fastnoise-lite = "*"
rand = "0.8"
