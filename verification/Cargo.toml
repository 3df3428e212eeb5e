[package]
name = "glfw_app"
version = "0.1.0"
edition = "2021"
publish = false

[dependencies]
gl = "*"
glfw = "*"
stb_image = "*"
nalgebra-glm = "*"
