[package]
name = "gnunet"
version = "0.1.0"
edition = "2021"
publish = false

[dependencies]
async-std = "1"
base32 = "*"
rust-crypto = "0.2"
