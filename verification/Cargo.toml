[package]
name = "tilepipe"
version = "0.1.0"
edition = "2021"
publish = false

[dependencies]
yaml-rust = "=0.4.5"
nalgebra-glm = "=0.21.0"
num-traits = "*"
image = { version = "=0.25.10", default-features = false }
