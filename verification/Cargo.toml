[package]
name = "easywg"
version = "0.1.0"
edition = "2021"
publish = false

[dependencies]
bytemuck = "1"
regex = "1"
wgpu = { version = "0.19", default-features = false, features = ["wgsl"] }
pollster = "0.3"
flume = "0.11"
clap = { version = "4", features = ["derive"] }
env_logger = "0.11"
log = "0.4"
