[package]
name = "const_default"
version = "0.1.0"
edition = "2021"
publish = false

[dependencies]
syn = "*"
quote = "*"
proc-macro2 = "*"
proc-macro-crate = "*"
