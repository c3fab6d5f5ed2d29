[package]
name = "ascii_runner"
version = "0.1.0"
edition = "2021"
publish = false

[dependencies]
bracket-lib = "0.8"
