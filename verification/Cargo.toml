[package]
name = "ship_demo"
version = "0.1.0"
edition = "2021"
publish = false

[dependencies]
find_folder = "=0.3.0"
nalgebra = "=0.29.0"
nphysics2d = "=0.24.0"
notify = "=4.0.18"
piston_window = "=0.120.0"
serde = "=1.0.229"
serde_derive = "=1.0.229"
toml = "=0.4.10"
