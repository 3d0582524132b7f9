[package]
name = "symcipher"
version = "0.1.0"
edition = "2021"
publish = false

[dependencies]
aes = "=0.6.0"
aes-ctr = "=0.6.0"
block-modes = "=0.7.0"
des = "=0.6.0"
openssl = "=0.10.81"
