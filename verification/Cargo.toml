[package]
name = "logview"
version = "0.1.0"
edition = "2021"
publish = false

[dependencies]
cache-size = "*"
glutin = "=0.27.0"
femtovg = "=0.13.0"
