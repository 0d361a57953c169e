[package]
name = "geometry"
version = "0.1.0"
edition = "2021"
publish = false

[dependencies]
glow = "*"
glutin = "0.29"
