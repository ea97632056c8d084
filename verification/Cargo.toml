[package]
name = "tcp_greeter"
version = "0.1.0"
edition = "2021"
publish = false

[dependencies]
getopts = "*"
rand = "*"
smoltcp = "*"
