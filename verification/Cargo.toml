[package]
name = "schwarzschild_raytracer_tui"
version = "0.1.0"
edition = "2021"
publish = false

[dependencies]
ratatui = "0.30"
crossterm = "0.29"
rayon = "1.10"
glam = "0.29"
