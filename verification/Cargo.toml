[package]
name = "rlbot_core"
version = "0.1.0"
edition = "2021"
publish = false

[dependencies]
ratelimit = "*"
flatbuffers = "*"
libloading = "*"
