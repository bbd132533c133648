[package]
name = "creator"
version = "0.1.0"
edition = "2021"
publish = false

[dependencies]
itertools = "0.10"
proc-macro2 = "1"
quote = "1"
syn = "1"
