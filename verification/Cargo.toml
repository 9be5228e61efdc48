[package]
name = "bathbot"
version = "0.1.0"
edition = "2021"
publish = false

[dependencies]
time = "*"
rand = "*"
image = { version = "*", default-features = false, features = ["png"] }
