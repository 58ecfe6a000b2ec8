[package]
name = "icarust"
version = "0.1.0"
edition = "2021"
publish = false

[dependencies]
ggez = "=0.5.1"
nalgebra = "0.30"
ncollide2d = "0.33"
rand = "=0.8.8"
