[package]
name = "marshmallow_fm"
version = "0.1.0"
edition = "2021"
publish = false

[dependencies]
crossterm = "0.29.0"
glam = "0.30.10"
log = "0.4.34"
luminance = "0.47.0"
