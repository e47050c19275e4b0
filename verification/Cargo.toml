[package]
name = "gilded_sentinel"
version = "0.1.0"
edition = "2021"
publish = false

[dependencies]
clap = "*"
env_logger = "*"
get_if_addrs = "*"
libc = "*"
log = "*"
nix = { version = "*", features = ["process", "fs", "user", "signal"] }
serde = { version = "*", features = ["derive"] }
serde_json = "*"
signal-hook-registry = "*"
sysinfo = "*"
toml = "*"
