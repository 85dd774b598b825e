[package]
name = "wl_clicker"
version = "0.1.0"
edition = "2021"
publish = false

[dependencies]
anyhow = "1"
async-std = "1"
calloop = { version = "=0.14.5", features = ["executor"] }
calloop-wayland-source = "=0.4.1"
clap = { version = "4", features = ["derive"] }
env_logger = "*"
evdev = "=0.13.2"
log = "0.4"
nix = { version = "*", features = ["user", "fs"] }
rand = "=0.9.5"
rand_distr = "=0.5.1"
serde = { version = "1", features = ["derive"] }
serde_json = "1"
wayland-client = "=0.31.15"
wayland-protocols-wlr = { version = "=0.3.12", features = ["client"] }
