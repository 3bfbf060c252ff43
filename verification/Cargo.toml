[package]
name = "tabletop"
version = "0.1.0"
edition = "2021"
publish = false

[dependencies]
macroquad = "0.4"
once_cell = "1"
rand = "0.8"
