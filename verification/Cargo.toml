[package]
name = "relocate-midi"
version = "0.1.0"
edition = "2021"
publish = false

[dependencies]
pretty-hex = "*"
derive_more = { version = "*", features = ["debug", "display", "error"] }
