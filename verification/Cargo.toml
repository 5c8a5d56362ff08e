[package]
name = "qrlink"
version = "0.1.0"
edition = "2021"
publish = false

[dependencies]
qrcodegen = "1"
image = "0.24"
clap = "2"
