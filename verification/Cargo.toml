[package]
name = "mousewatcher"
version = "0.1.0"
edition = "2021"
publish = false

[dependencies]
rand = "*"
clap = "*"
colored = "*"
device_query = "*"
rdev = "*"
