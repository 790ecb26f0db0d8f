[package]
name = "staging"
version = "0.1.0"
edition = "2021"
publish = false

[dependencies]
darling = "*"
syn = "*"
quote = "*"
proc-macro2 = "*"
