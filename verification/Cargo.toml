[package]
name = "reru"
version = "0.1.0"
edition = "2021"
publish = false

[dependencies]
regex = "*"
fancy-regex = "*"
dashmap = "*"
once_cell = "*"
