[package]
name = "snaky"
version = "0.1.0"
edition = "2021"
publish = false

[dependencies]
pistoncore-glutin_window = "*"
piston2d-graphics = "*"
piston2d-opengl_graphics = "*"
piston = "*"
