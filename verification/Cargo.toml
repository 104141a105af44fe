[package]
name = "otter_pi"
version = "0.1.0"
edition = "2021"
publish = false

[dependencies]
fs-err = "3"
tempfile = "3"
