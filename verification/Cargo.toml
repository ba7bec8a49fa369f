[package]
name = "tee_worker"
version = "0.1.0"
edition = "2021"
publish = false

[dependencies]
sp-core = "=43.0.0"
sp-io = "*"
parity-scale-codec = "=3.7.5"
