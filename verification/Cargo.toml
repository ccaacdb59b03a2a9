[package]
name = "ambient"
version = "0.1.0"
edition = "2021"
publish = false

[dependencies]
caps = "*"
exec = "*"
clap = "2"
