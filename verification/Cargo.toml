[package]
name = "hvisor_la64"
version = "0.1.0"
edition = "2021"
publish = false

[dependencies]
bit_field = "0.10"
loongArch64 = "*"
spin = "0.9"
