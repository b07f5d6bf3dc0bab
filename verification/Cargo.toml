[package]
name = "python_plugin"
version = "0.1.0"
edition = "2021"
publish = false

[dependencies]
itertools = "0.12"
miette = "5"
