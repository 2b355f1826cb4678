[package]
name = "tcp_socket"
version = "0.1.0"
edition = "2021"
publish = false

[dependencies]
smoltcp = { version = "0.11", default-features = false, features = ["std", "async", "medium-ethernet", "medium-ip", "proto-ipv4", "proto-ipv6", "socket-tcp"] }
async-trait = "0.1"
