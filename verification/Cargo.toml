[package]
name = "tinybrot"
version = "0.1.0"
edition = "2021"
publish = false

[dependencies]
lexopt = "0.3"
num = "0.4"
png = "0.17"
rayon = "1"
