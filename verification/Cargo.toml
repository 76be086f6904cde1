[package]
name = "field_grid"
version = "0.1.0"
edition = "2021"
publish = false

[dependencies]
nalgebra = "=0.35.0"
rayon = "=1.12.0"
egui = "*"
