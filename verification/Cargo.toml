[package]
name = "icm20608g"
version = "0.1.0"
edition = "2021"
publish = false

[dependencies]
embedded-hal = "1.0"
rppal = "*"
cli-table = { version = "*", default-features = false }
