[package]
name = "synth_language"
version = "0.1.0"
edition = "2021"
publish = false

[dependencies]
rand = "0.8"
rand_xorshift = "0.3"
anyhow = "1"
log = "0.4"
env_logger = "0.10"
cpal = "0.15"
hound = "3"
meap = "*"
