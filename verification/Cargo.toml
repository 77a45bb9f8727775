[package]
name = "chip_8"
version = "0.1.0"
edition = "2021"

[dependencies]
rand = "0.8"
time = "0.1"
