[package]
name = "ted"
version = "0.1.0"
edition = "2021"
publish = false

[dependencies]
clap = { version = "*", features = ["derive"] }
crossterm = "*"
syntect = { version = "*", default-features = false, features = ["default-fancy"] }
