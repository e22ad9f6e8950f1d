[package]
name = "loginit"
version = "0.1.0"
edition = "2021"
publish = false

[dependencies]
anyhow = "*"
chrono = "*"
fern = "*"
lazy_static = "*"
log = "*"
