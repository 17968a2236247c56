[package]
name = "codesign-verify"
version = "0.1.3"
edition = "2021"
publish = false

[dependencies]
sha2 = "0.10"
core-foundation = "0.9"
