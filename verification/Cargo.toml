[package]
name = "cliperge"
version = "1.0.0"
edition = "2021"
publish = false

[dependencies]
clap = "4"
colored = "2"
dirs = "5"
