[package]
name = "m64_editor"
version = "0.1.0"
edition = "2021"
publish = false

[dependencies]
bitvec = "1"
druid = "0.8"
druid-shell = "0.8"
rfd = "0.15"
