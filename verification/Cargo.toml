[package]
name = "virtiofsd"
version = "1.13.0"
edition = "2021"
publish = false

[dependencies]
btree-range-map = "0.7"
libc = "0.2"
log = "0.4"
postcard = { version = "1", default-features = false, features = ["use-std"] }
serde = { version = "1", features = ["derive"] }
vm-memory = "0.16"
