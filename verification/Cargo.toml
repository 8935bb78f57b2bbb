[package]
name = "mrml"
version = "0.1.0"
edition = "2021"
publish = false

[dependencies]
xmlparser = "0.13"
