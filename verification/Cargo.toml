[package]
name = "lighthouse-groupie"
version = "0.1.0"
edition = "2021"
publish = false

[dependencies]
serde_json = "1"
chrono = "0.4"
anyhow = "1"
log = "0.4"
url = "2"
dirs = "4"
env_logger = "0.9"
indicatif = "0.17"
structopt = "0.3"
