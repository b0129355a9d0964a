[package]
name = "paint_engine"
version = "0.1.0"
edition = "2021"
publish = false

[dependencies]
ash = "=0.32.1"
winit = "=0.25.0"
