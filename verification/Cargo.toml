[package]
name = "robot_hat"
version = "0.1.0"
edition = "2021"
publish = false

[dependencies]
rppal = { version = "*", features = ["hal"] }
embedded-hal = "*"
