[package]
name = "num"
version = "0.1.0"
edition = "2021"
publish = false

[dependencies]
honggfuzz = "0.5"
