[package]
name = "crab"
version = "0.1.0"
edition = "2021"
publish = false

[dependencies]
rand = "0.8"
ggez = "0.5"
nalgebra = "0.18"
