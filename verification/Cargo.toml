[package]
name = "etc_express_midi"
version = "0.1.0"
edition = "2021"
publish = false

[dependencies]
midir = "*"
thiserror = "1"
