[package]
name = "voxel_terrain"
version = "0.1.0"
edition = "2021"
publish = false

[dependencies]
ahash = "=0.8.12"
dashmap = "=5.5.3"
flume = "=0.11.1"
glam = "=0.34.1"
lazy_static = "=1.5.1"
multi-map = "=1.3.0"
noise = "*"
parking_lot = "=0.12.5"
rayon = "=1.12.0"
serde_json = "=1.0.154"
simdnoise = "=3.1.6"
