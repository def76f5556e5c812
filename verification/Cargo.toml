[package]
name = "ellekit"
version = "0.2.0"
edition = "2021"
publish = false

[dependencies]
thiserror = { version = "2", default-features = false }
