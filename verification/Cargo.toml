[package]
name = "rust_format"
version = "0.1.0"
edition = "2021"
publish = false

[dependencies]
toolchain_find = "*"
thiserror = "1"
