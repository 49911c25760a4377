[package]
name = "chip_8"
version = "0.1.0"
edition = "2021"
publish = false

[dependencies]
clap = "2.33"
minifb = "0.13"
rand = "0.7"
