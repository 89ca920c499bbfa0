[package]
name = "grrs"
version = "0.1.0"
edition = "2021"
publish = false

[dependencies]
rand = "0.8"
rayon = "*"
indicatif = "*"
num_cpus = "*"
structopt = "*"
env_logger = "*"
log = "*"
failure = "*"
