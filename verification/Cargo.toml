[package]
name = "hello_triangle"
version = "0.1.0"
edition = "2021"
publish = false

[dependencies]
vulkan = "=0.0.0-dev.0+1.3.281"
