[package]
name = "uefi"
version = "0.1.0"
edition = "2021"
publish = false

[dependencies]
limine = "=0.5.0"
bitflags = "=2.13.2"
