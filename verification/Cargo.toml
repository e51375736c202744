[package]
name = "superbible7"
version = "0.1.0"
edition = "2021"
publish = false

[dependencies]
gl46 = "*"
