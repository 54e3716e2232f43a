[package]
name = "wit-abi"
version = "0.1.0"
edition = "2021"
publish = false

[dependencies]
anyhow = "=1.0.104"
heck = "=0.3.3"
id-arena = "2"
structopt = "=0.3.26"
wit-parser = "0.3"
