[package]
name = "datastruct"
version = "0.1.0"
edition = "2021"
publish = false

[dependencies]
syn = { version = "1", features = ["full"] }
itertools = "0.10"
quote = "1"
proc-macro2 = "1"
