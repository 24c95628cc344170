[package]
name = "isometric"
version = "0.1.0"
edition = "2021"
publish = false

[dependencies]
nalgebra = "0.33"
gl = "0.11"
glutin = "0.19"
glium = "0.23"
conrod_core = "0.63"
conrod_glium = "0.63"
conrod_winit = "0.63"
image = "0.21"
itertools = "0.8"
