[package]
name = "chaos_framework"
version = "0.1.0"
edition = "2021"
publish = false

[dependencies]
glam = "*"
rand = "*"
tobj = "*"
