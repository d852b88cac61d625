[package]
name = "passgui"
version = "0.1.0"
edition = "2021"
publish = false

[dependencies]
gtk = "*"
walkdir = "*"
log = "*"
log4rs = "*"
