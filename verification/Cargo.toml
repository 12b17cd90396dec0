[package]
name = "tessera_render"
version = "0.1.0"
edition = "2021"
publish = false

[dependencies]
glyphon = "=0.12.0"
parking_lot = "=0.12.5"
wgpu = "=30.0.1"
log = "=0.4.34"
flexi_logger = "=0.31.10"
