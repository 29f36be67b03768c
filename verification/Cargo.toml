[package]
name = "hello_ockam"
version = "0.1.0"
edition = "2021"
publish = false

[dependencies]
ockam = "*"
ockam_core = "*"
tracing = "*"
