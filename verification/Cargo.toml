[package]
name = "stone_maze"
version = "0.1.0"
edition = "2021"
publish = false

[dependencies]
rand = "=0.8.5"
image = { version = "=0.24.9", default-features = false }
noise = { version = "=0.9.0", default-features = false }
