[package]
name = "rive_rs"
version = "0.1.0"
edition = "2021"
publish = false

[dependencies]
image = "*"
vello = "*"
bytemuck = "*"
smallvec = "*"
