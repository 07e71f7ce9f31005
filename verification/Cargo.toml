[package]
name = "tb_core"
version = "0.1.0"
edition = "2021"
publish = false

[dependencies]
os-version = "*"
which = "*"
log = "*"
simplelog = "*"
thiserror = "*"
