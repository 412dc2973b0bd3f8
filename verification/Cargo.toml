[package]
name = "polkaregistry"
version = "0.1.0"
edition = "2021"
publish = false

[dependencies]
sp-core = "*"
sp-keystore = "*"
sc-keystore = "*"
structopt = "*"
directories = "*"
