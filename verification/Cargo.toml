[package]
name = "orbit_sim"
version = "0.1.0"
edition = "2021"
publish = false

[dependencies]
satkit = "*"
nalgebra = "*"
nav-types = "*"
once_cell = "*"
anyhow = "*"
serde = { version = "*", features = ["derive"] }
serde_json = "*"
