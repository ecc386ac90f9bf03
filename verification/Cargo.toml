[package]
name = "jit_binary"
version = "0.1.0"
edition = "2021"
publish = false

[dependencies]
cubecl = "0.2"
burn-tensor = "0.14"
