[package]
name = "udp_bridge"
version = "0.1.0"
edition = "2021"
publish = false

[dependencies]
smoltcp = { version = "0.8", features = ["std", "medium-ip", "proto-ipv4", "socket-udp", "async"] }
futures = { version = "0.3" }
