[package]
name = "eccodes"
version = "0.1.0"
edition = "2021"
publish = false

[dependencies]
eccodes-sys = "=0.7.0"
libc = "=0.2.191"
errno = "=0.3.14"
fallible-iterator = "=0.3.0"
thiserror = "=2.0.21"
tracing = "=0.1.44"
bytes = "=1.12.1"
ndarray = "=0.17.2"
