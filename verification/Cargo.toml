[package]
name = "masonry_wayland"
version = "0.1.0"
edition = "2021"
publish = false

[dependencies]
masonry_core = "=0.4.0"
dpi = "=0.1.2"
accesskit = "=0.21.1"
accesskit_unix = "0.17"
copypasta = "=0.10.2"
pollster = "=1.0.1"
tracing = "=0.1.44"
