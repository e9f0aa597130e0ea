[package]
name = "glium_book"
version = "0.1.0"
edition = "2021"
publish = false

[dependencies]
glium = "0.34"
winit = "0.29"
image = { version = "0.24", default-features = false, features = ["jpeg", "png"] }
