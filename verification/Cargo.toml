[package]
name = "gettid"
version = "0.1.0"
edition = "2021"
publish = false

[dependencies]
libc = "=0.2.190"
nix = { version = "=0.31.3", features = ["process"] }

[dev-dependencies]
rustix = { version = "=1.1.5", features = ["thread"] }
crossbeam-utils = "*"
