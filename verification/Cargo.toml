[package]
name = "overloaded_literals"
version = "0.1.0"
edition = "2021"
publish = false

[dependencies]
tlist = "*"
overloaded_literals_macro = "*"
