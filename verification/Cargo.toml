[package]
name = "libublk"
version = "0.1.0"
edition = "2021"
publish = false

[dependencies]
bitmaps = "3"
io-uring = "0.6"
libc = "0.2"
log = "0.4"
serde = { version = "1", features = ["derive"] }
serde_json = "1"
thiserror = "1"
