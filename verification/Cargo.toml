[package]
name = "xeen_cc"
version = "0.1.0"
edition = "2021"

[dependencies]
byteorder = "1"
ux = "0.1"
