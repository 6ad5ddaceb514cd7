[package]
name = "pandix"
version = "0.1.0"
edition = "2021"
publish = false

[dependencies]
gl = "*"
legion = "0.2"
sdl2 = "*"
