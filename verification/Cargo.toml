[package]
name = "launcher_errors"
version = "0.1.0"
edition = "2021"
publish = false

[dependencies]
safe_core = "*"
