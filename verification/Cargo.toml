[package]
name = "breakout"
version = "0.1.0"
edition = "2021"
publish = false

[dependencies]
rand = "0.8"
cgmath = "0.18"
gl = "0.14"
glfw = "*"
image = "*"
