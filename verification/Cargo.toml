[package]
name = "kengine"
version = "0.1.0"
edition = "2021"
publish = false

[dependencies]
anyhow = "=1.0.104"
gl46 = "=0.2.1"
image = "=0.25.10"
nalgebra-glm = "=0.21.0"
sdl2 = "=0.38.0"
thiserror = "=2.0.21"
zip = "=9.1.0"
