[package]
name = "obj_viewer"
version = "0.1.0"
edition = "2021"
publish = false

[dependencies]
obj-rs = "0.7"
nalgebra = "0.32"
glium = "0.32"
glium-glyph = "*"
log = "0.4"
env_logger = "0.10"
