[package]
name = "vk_bootstrap"
version = "0.1.0"
edition = "2021"
publish = false

[dependencies]
clap = "=2.34.0"
# Not used directly: holds the bindings that vulkano 0.19.0 builds on at the
# version it was written for. With 0.5.3 vulkano 0.19.0 does not compile.
vk-sys = "=0.5.2"
vulkano = "=0.19.0"
vulkano-win = "=0.19.0"
winit = "=0.22.2"
