[package]
name = "direct_tcr"
version = "0.1.0"
edition = "2021"
publish = false

[dependencies]
substrate-bn = "*"
rand = "0.8"
