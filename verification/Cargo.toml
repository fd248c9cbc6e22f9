[package]
name = "semiflow_ffi"
version = "0.10.0"
edition = "2021"
publish = false

[dependencies]
num-complex = "0.4"
