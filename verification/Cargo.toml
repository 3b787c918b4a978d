[package]
name = "embed_resource"
version = "3.0.0"
edition = "2021"
publish = false

[dependencies]
memchr = "*"
toml = "*"
cc = "*"
rustc_version = "*"
winreg = "*"
vswhom = "*"
