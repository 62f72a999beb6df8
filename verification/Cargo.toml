[package]
name = "tagify"
version = "0.1.0"
edition = "2021"
publish = false

[dependencies]
cookie = { version = "*", features = ["private", "key-expansion"] }
rust-argon2 = "*"
rand = "*"
fuzzy-matcher = "*"
