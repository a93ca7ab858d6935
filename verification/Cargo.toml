[package]
name = "unik"
version = "0.1.0"
edition = "2021"
publish = false

[dependencies]
libc = "0.2"
mac_address = "1"
sha1 = "=0.6.0"
