[package]
name = "generic_core"
version = "0.1.0"
edition = "2021"
publish = false

[dependencies]
uuid = "*"
proc-macro2 = "*"
quote = "*"
syn = "*"
rand = "*"
