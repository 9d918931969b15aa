[package]
name = "critters_core"
version = "0.1.0"
edition = "2021"
publish = false

[dependencies]
agg-gui = "*"
box2d-rust = "*"
dirs = "*"
web-time = "*"
