[package]
name = "tc_save_monger"
version = "0.1.0"
edition = "2021"
publish = false

[dependencies]
snap = "*"
