[package]
name = "fmod_rs"
version = "0.1.0"
edition = "2021"
publish = false

[dependencies]
regex = "1"
winreg = "*"
build-rs = "*"
log = "0.4"
paste = "1"
