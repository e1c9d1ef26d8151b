[package]
name = "primwrap"
version = "0.1.0"
edition = "2021"
publish = false

[dependencies]
virtue = { version = "*", features = ["proc-macro2"] }
