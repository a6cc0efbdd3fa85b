[package]
name = "fuse_session"
version = "0.1.0"
edition = "2021"
publish = false

[dependencies]
io-uring = "0.7"
libc = "0.2"
log = "0.4"
nix = { version = "0.30", features = ["user"] }
tokio = { version = "1", features = ["rt", "rt-multi-thread"] }
