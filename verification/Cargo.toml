[package]
name = "cinder-ui"
version = "0.1.0"
edition = "2021"
publish = false

[dependencies]
embedded-graphics = "0.8"
fontdue = "0.9"
