[package]
name = "chdb_rust"
version = "0.1.0"
edition = "2021"
publish = false

[dependencies]
libc = "0.2"
thiserror = "1"
tracing = "0.1"
