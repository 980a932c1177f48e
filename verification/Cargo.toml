[package]
name = "piet_stdweb"
version = "0.1.0"
edition = "2021"
publish = false

[dependencies]
piet = "=0.0.6"
stdweb = "=0.4.20"
