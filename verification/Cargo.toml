[package]
name = "zoneinfo_compiled"
version = "0.1.0"
edition = "2021"
publish = false

[dependencies]
datetime = "*"
