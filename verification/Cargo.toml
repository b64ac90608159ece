[package]
name = "scope_rs"
version = "0.1.0"
edition = "2021"
publish = false

[dependencies]
ringbuf = "0.4"
cpal = "0.15"
symphonia = "0.5"
