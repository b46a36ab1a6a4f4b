[package]
name = "window_adapter"
version = "0.1.0"
edition = "2021"
publish = false

[dependencies]
glutin = "0.19"
gleam = "0.6"
euclid = "0.15"
lazy_static = "0.2"
log = "0.3"
