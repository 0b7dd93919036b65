[package]
name = "snake_game"
version = "0.1.0"
edition = "2021"
publish = false

[dependencies]
piston_window = "*"
rand = "0.8"
