[package]
name = "scirs2-core"
version = "0.1.0"
edition = "2021"
publish = false

[dependencies]
ndarray = "0.16"
