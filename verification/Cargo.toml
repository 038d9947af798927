[package]
name = "holani"
version = "0.1.0"
edition = "2021"
publish = false

[dependencies]
hashbrown = "0.15"
lazy_static = "1"
log = "0.4"
md5 = "0.7"
