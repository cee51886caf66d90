[package]
name = "grac"
version = "0.1.0"
edition = "2021"
publish = false

[dependencies]
unicode-normalization = "*"
aho-corasick = "*"
