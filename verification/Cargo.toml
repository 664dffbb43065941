[package]
name = "ants_layer"
version = "0.1.0"
edition = "2021"
publish = false

[dependencies]
rand = "0.8"
noise = "0.9"
colored = "2"
json = "0.12"
bitflags = "2"
serde = { version = "1", features = ["derive"] }
sdl2 = { version = "0.37", features = ["ttf"] }
gl = "0.14"
pathfinding = "4"
