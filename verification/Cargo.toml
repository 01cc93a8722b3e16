[package]
name = "oodle-safe"
version = "0.2.0"
edition = "2021"
publish = false

[dependencies]
oodle-sys = "*"
