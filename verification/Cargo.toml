[package]
name = "watchwait"
version = "0.1.0"
edition = "2021"
publish = false

[dependencies]
anyhow = "1"
notify = "4"
path-absolutize = "*"
structopt = "0.3"
