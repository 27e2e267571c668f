[package]
name = "dxlib"
version = "0.5.1"
edition = "2021"

[dependencies]
Fullerene = "*"
num = "0.4"
