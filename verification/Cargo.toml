[package]
name = "aaronia_rtsa"
version = "0.1.0"
edition = "2021"
publish = false

[dependencies]
widestring = "=1.2.1"
num-complex = "*"
