[package]
name = "snow"
version = "0.1.0"
edition = "2021"
publish = false

[dependencies]
goblin = "*"
anyhow = "*"
log = "*"
env_logger = "*"
loopdev = "*"
nix = { version = "*", features = ["mount", "sched", "fs", "process", "user"] }
