[package]
name = "makepad_packaging"
version = "0.1.0"
edition = "2021"
publish = false

[dependencies]
cargo_metadata = "*"
