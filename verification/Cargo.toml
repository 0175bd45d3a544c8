[package]
name = "solarsim"
version = "0.1.0"
edition = "2021"
publish = false

[dependencies]
fastnoise-lite = "*"
rand = "0.8"
minifb = "*"
