[package]
name = "rk3588_rs"
version = "0.1.0"
edition = "2021"
publish = false

[dependencies]
uapi = "0.2"
nix = { version = "0.29", features = ["ioctl", "mman", "fs"] }
bstr = "1"
half = "2"
