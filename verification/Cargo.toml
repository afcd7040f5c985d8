[package]
name = "tracks_rs"
version = "0.1.0"
edition = "2021"
publish = false

[dependencies]
glam = "*"
palette = "*"
serde_json = "1"
