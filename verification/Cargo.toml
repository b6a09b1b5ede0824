[package]
name = "font_kit"
version = "0.1.0"
edition = "2021"
publish = false

[dependencies]
byteorder = "1"
log = "0.4"
pathfinder_geometry = "0.5"
pathfinder_simd = "0.5"
