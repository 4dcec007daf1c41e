[package]
name = "vk_ml"
version = "0.1.0"
edition = "2021"
publish = false

[dependencies]
ash = "0.37"
bytemuck = "1"
tracing = "0.1"
