[package]
name = "kernel"
version = "0.1.0"
edition = "2021"
publish = false

[dependencies]
fnv = "1"
rand = "0.8"
rand_word = "*"
serde_json = "1"
actix = "0.13"
actix-web = "4"
actix-web-actors = "4"
futures-lite = "*"
log = "0.4"
env_logger = "*"
