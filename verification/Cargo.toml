[package]
name = "row_derive"
version = "0.1.0"
edition = "2021"
publish = false

[dependencies]
serde_derive_internals = "*"
syn = "*"
quote = "*"
proc-macro2 = "*"
