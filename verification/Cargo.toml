[package]
name = "pretty_cue"
version = "0.1.0"
edition = "2021"
publish = false

[dependencies]
clap = "2"
cue = "*"
cue-sys = "*"
env_logger = "*"
log = "*"
