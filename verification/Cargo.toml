[package]
name = "eren_frame_core"
version = "0.1.0"
edition = "2021"
publish = false

[dependencies]
env_logger = "*"
glam = "=0.29.3"
log = "*"
