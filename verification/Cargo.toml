[package]
name = "chip8"
version = "0.1.0"
edition = "2021"
publish = false

[dependencies]
failure = "0.1"
glium = "0.25"
rand = "0.8"
