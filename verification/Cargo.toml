[package]
name = "flatc-gen"
version = "0.1.0"
edition = "2021"
publish = false

[dependencies]
dirs = "*"
failure = "0.1"
file-lock = "1"
log = "0.4"
