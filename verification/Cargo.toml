[package]
name = "regexp_parser"
version = "0.1.0"
edition = "2021"
publish = false

[dependencies]
unicode-id-start = "=1.5.0"
