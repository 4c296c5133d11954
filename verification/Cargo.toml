[package]
name = "rost"
version = "0.1.0"
edition = "2021"
publish = false

[dependencies]
pc-keyboard = "*"
spin = "*"
x86_64 = "*"
