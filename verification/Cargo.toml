[package]
name = "hc_sr04"
version = "0.1.0"
edition = "2021"
publish = false

[dependencies]
rppal = "=0.13.1"
