[package]
name = "smol_transform"
version = "0.1.0"
edition = "2021"
publish = false

[dependencies]
rand = "0.7"
clap = "2"
