[package]
name = "afpacket"
version = "0.2.3"
edition = "2021"
publish = false

[dependencies]
libc = "0.2"
async-io = "1"
futures-lite = "1"
