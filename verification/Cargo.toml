[package]
name = "icmp_echo"
version = "0.1.0"
edition = "2021"
publish = false

[dependencies]
libc = "*"
mio = { version = "*", features = ["os-poll", "os-ext"] }
