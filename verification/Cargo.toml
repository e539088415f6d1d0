[package]
name = "glume"
version = "0.1.0"
edition = "2021"

[dependencies]
gl = "0.14"
glutin = "0.29"
stb_image = "0.2"
