[package]
name = "networks2arrow"
version = "0.1.0"
edition = "2021"
publish = false

[dependencies]
arrow = { version = "*", default-features = false, features = ["ipc"] }
bollard = "0.19"
