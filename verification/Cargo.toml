[package]
name = "auto_column"
version = "0.1.0"
edition = "2021"
publish = false

[dependencies]
convert_case = "*"
