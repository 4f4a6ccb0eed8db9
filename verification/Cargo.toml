[package]
name = "montecapcho"
version = "0.1.0"
edition = "2021"
publish = false

[dependencies]
image = "*"
imageproc = "*"
tempfile = "*"
tesseract = "*"
clap = { version = "*", features = ["derive"] }
