[package]
name = "jemalloc-ctl"
version = "0.1.0"
edition = "2021"
publish = false

[dependencies]
jemalloc-sys = "0.1"
libc = "0.2"
