[package]
name = "aesteve"
version = "0.1.0"
edition = "2021"

[dependencies]
base64 = "0.22"
rayon = "1"
