[package]
name = "renderer"
version = "0.1.0"
edition = "2021"
publish = false

[dependencies]
ash = "=0.37.3"
ash-window = "=0.12.0"
raw-window-handle = "=0.5.2"
winit = "=0.27.5"
