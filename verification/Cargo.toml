[package]
name = "unicodeit"
version = "0.2.1"
edition = "2021"
publish = false

[dependencies]
aho-corasick = "1"
memchr = "2"
clap = { version = "4", features = ["cargo"] }
