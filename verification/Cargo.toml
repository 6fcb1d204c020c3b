[package]
name = "input"
version = "0.1.0"
edition = "2021"

[dependencies]
rustc-serialize = "0.3"
