[package]
name = "routine"
version = "0.1.0"
edition = "2021"
publish = false

[dependencies]
getopts = "0.2"
time = "0.1"
piston = "*"
piston_window = "*"
pistoncore-glutin_window = "*"
piston2d-graphics = "*"
piston2d-opengl_graphics = "*"
