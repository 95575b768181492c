[package]
name = "img_extract"
version = "0.1.0"
edition = "2021"
publish = false

[dependencies]
reportify = "*"
tracing = "0.1"
xscript = "*"
