[package]
name = "texpipe"
version = "0.1.0"
edition = "2021"
publish = false

[dependencies]
glob = "*"
image = "*"
indicatif = "*"
inquire = "*"
rayon = "*"
walkdir = "*"
