[package]
name = "wol"
version = "0.1.0"
edition = "2021"
publish = false

[dependencies]
macaddr = "1"
structopt = "0.3"
