[package]
name = "solar_renderer"
version = "0.1.0"
edition = "2021"
publish = false

[dependencies]
rand = "=0.8.8"
fastnoise-lite = "=1.1.1"
nalgebra-glm = "=0.21.0"
minifb = "=0.29.0"
tobj = "*"
