[package]
name = "ez_input"
version = "0.1.0"
edition = "2021"
publish = false

[dependencies]
evdev = "0.11"
