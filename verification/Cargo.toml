[package]
name = "bog"
version = "0.1.0"
edition = "2021"
publish = false

[dependencies]
dirs = "*"
monosodium = "=0.1.0-pre.1"
