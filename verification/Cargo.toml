[package]
name = "docgen"
version = "0.1.0"
edition = "2021"
publish = false

[dependencies]
askama = "*"
itertools = "*"
pulldown-cmark = { version = "*", default-features = false, features = ["html"] }
