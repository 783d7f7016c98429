[package]
name = "px86"
version = "0.1.0"
edition = "2021"
publish = false

[dependencies]
clap = "2"
byteorder = "1"
strum = "*"
strum_macros = "*"
variant_count = "*"
