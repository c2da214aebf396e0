[package]
name = "p1"
version = "0.1.0"
edition = "2021"
publish = false

[dependencies]
gl = "=0.14.0"
glfw = { version = "=0.51.0", default-features = false }
num-traits = "=0.2.19"
sdl2 = "=0.38.0"
