[package]
name = "encoding_resolver"
version = "0.1.0"
edition = "2021"
publish = false

[dependencies]
chardet = "*"
encoding_rs = "*"
