[package]
name = "battery"
version = "0.1.0"
edition = "2021"
publish = false

[dependencies]
libc = "*"
nix = { version = "*", features = ["ioctl", "mman"] }
plist = "*"
serde = { version = "*", features = ["derive"] }
