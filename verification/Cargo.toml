[package]
name = "metafactory"
version = "0.4.4"
edition = "2021"
publish = false

[dependencies]
typedef = "*"
