[package]
name = "switchpad"
version = "0.1.0"
edition = "2021"
publish = false

[dependencies]
gilrs = "*"
nusb = "*"
futures-lite = "*"
inquire = "*"
