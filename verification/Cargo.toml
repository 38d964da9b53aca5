[package]
name = "gitsync"
version = "0.1.0"
edition = "2021"
publish = false

[dependencies]
env_logger = "0.8"
git2 = "0.18"
log = "0.4"
regex = "1"
structopt = "0.3"
